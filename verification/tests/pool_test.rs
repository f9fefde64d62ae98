use mediasoup_server::config::{Config, Environment};
use mediasoup_server::engine::{EngineFailure, Worker};
use mediasoup_server::error::MediaSoupError;
use mediasoup_server::pool::CustomWorkerManager;

fn pool_config(workers: &str) -> Config {
    Config::load(Environment {
        listen_addr: None,
        http_addr: None,
        num_workers: Some(workers.to_string()),
        log_level: None,
        log_tags: None,
        rtc_min_port: None,
        rtc_max_port: None,
        announced_ip: None,
    })
}

fn pool_of(workers: u64) -> CustomWorkerManager {
    let mut pool = CustomWorkerManager::new(&pool_config(&workers.to_string()));
    let mut handle = 0;
    while pool.wants_worker() {
        pool.worker_started(Ok(Worker { handle })).unwrap();
        handle += 1;
    }
    pool
}

#[test]
fn a_pool_wants_as_many_workers_as_configured() {
    let mut pool = CustomWorkerManager::new(&pool_config("3"));
    let mut started = 0;
    while pool.wants_worker() {
        pool.worker_started(Ok(Worker { handle: started })).unwrap();
        started += 1;
    }
    assert_eq!(started, 3);
}

#[test]
fn a_worker_that_does_not_start_is_an_error() {
    let mut pool = CustomWorkerManager::new(&pool_config("2"));
    assert_eq!(
        pool.worker_started(Err(EngineFailure::Failed("no binary".to_string()))),
        Err(MediaSoupError::Io("no binary".to_string()))
    );
    assert!(pool.wants_worker());
    assert_eq!(
        pool.worker_started(Err(EngineFailure::Malformed("bad settings".to_string()))),
        Err(MediaSoupError::Json("bad settings".to_string()))
    );
}

#[test]
fn an_empty_pool_has_no_worker_to_give() {
    let mut pool = CustomWorkerManager::new(&pool_config("0"));
    assert!(!pool.wants_worker());
    assert_eq!(
        pool.get_worker(),
        Err(MediaSoupError::Config("No workers available".to_string()))
    );
}

#[test]
fn workers_are_given_in_turn() {
    let mut pool = pool_of(3);
    let given: Vec<u64> = (0..7).map(|_| pool.get_worker().unwrap().handle).collect();
    assert_eq!(given, vec![0, 1, 2, 0, 1, 2, 0]);
}

#[test]
fn round_robin_gives_each_worker_its_fair_share() {
    for workers in 1..6u64 {
        for calls in 0..23usize {
            let mut pool = pool_of(workers);
            let mut served = vec![0usize; workers as usize];
            for _ in 0..calls {
                served[pool.get_worker().unwrap().handle as usize] += 1;
            }
            let floor = calls / workers as usize;
            let ceil = (calls + workers as usize - 1) / workers as usize;
            for count in served {
                assert!(count == floor || count == ceil);
            }
        }
    }
}
