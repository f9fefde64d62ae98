use mediasoup_server::config::{Config, Environment, ListenIp, MediaCodec};
use mediasoup_server::json::{Number, Value};

fn empty_environment() -> Environment {
    Environment {
        listen_addr: None,
        http_addr: None,
        num_workers: None,
        log_level: None,
        log_tags: None,
        rtc_min_port: None,
        rtc_max_port: None,
        announced_ip: None,
    }
}

#[test]
fn an_empty_environment_gives_the_defaults() {
    let config = Config::load(empty_environment());
    assert_eq!(config.listen_addr, "0.0.0.0:3000");
    assert_eq!(config.http_addr, None);
    assert_eq!(config.worker.num_workers, 1);
    assert_eq!(config.worker.log_level, "warn");
    assert_eq!(config.worker.log_tags, vec!["info".to_string()]);
    assert_eq!(config.worker.rtc_min_port, 10000);
    assert_eq!(config.worker.rtc_max_port, 10100);
    assert_eq!(config.router.media_codecs, Config::default_media_codecs());
    assert_eq!(
        config.webrtc.listen_ips,
        vec![ListenIp { ip: "0.0.0.0".to_string(), announced_ip: None }]
    );
}

#[test]
fn the_environment_sets_each_value() {
    let config = Config::load(Environment {
        listen_addr: Some("127.0.0.1:4000".to_string()),
        http_addr: Some("127.0.0.1:8080".to_string()),
        num_workers: Some("4".to_string()),
        log_level: Some("debug".to_string()),
        log_tags: Some("ice, dtls ,rtp".to_string()),
        rtc_min_port: Some("20000".to_string()),
        rtc_max_port: Some("20100".to_string()),
        announced_ip: Some("203.0.113.5".to_string()),
    });
    assert_eq!(config.listen_addr, "127.0.0.1:4000");
    assert_eq!(config.http_addr, Some("127.0.0.1:8080".to_string()));
    assert_eq!(config.worker.num_workers, 4);
    assert_eq!(config.worker.log_level, "debug");
    assert_eq!(
        config.worker.log_tags,
        vec!["ice".to_string(), "dtls".to_string(), "rtp".to_string()]
    );
    assert_eq!(config.worker.rtc_min_port, 20000);
    assert_eq!(config.worker.rtc_max_port, 20100);
    assert_eq!(
        config.webrtc.listen_ips,
        vec![ListenIp {
            ip: "0.0.0.0".to_string(),
            announced_ip: Some("203.0.113.5".to_string())
        }]
    );
}

#[test]
fn a_number_that_cannot_be_read_has_its_default() {
    let mut env = empty_environment();
    env.num_workers = Some("many".to_string());
    env.rtc_min_port = Some("70000".to_string());
    env.rtc_max_port = Some("-1".to_string());
    let config = Config::load(env);
    assert_eq!(config.worker.num_workers, 1);
    assert_eq!(config.worker.rtc_min_port, 10000);
    assert_eq!(config.worker.rtc_max_port, 10100);

    let mut env = empty_environment();
    env.num_workers = Some(" 2".to_string());
    env.rtc_min_port = Some("65535".to_string());
    env.rtc_max_port = Some("".to_string());
    let config = Config::load(env);
    assert_eq!(config.worker.num_workers, 1);
    assert_eq!(config.worker.rtc_min_port, 65535);
    assert_eq!(config.worker.rtc_max_port, 10100);
}

#[test]
fn log_tags_are_split_at_commas_and_trimmed() {
    let mut env = empty_environment();
    env.log_tags = Some("".to_string());
    assert_eq!(Config::load(env).worker.log_tags, vec![String::new()]);

    let mut env = empty_environment();
    env.log_tags = Some(" info ,, score\t".to_string());
    assert_eq!(
        Config::load(env).worker.log_tags,
        vec!["info".to_string(), String::new(), "score".to_string()]
    );
}

#[test]
fn the_default_codecs_are_opus_vp8_vp9_and_h264() {
    let codecs = Config::default_media_codecs();
    assert_eq!(
        codecs,
        vec![
            MediaCodec {
                kind: "audio".to_string(),
                mime_type: "audio/opus".to_string(),
                clock_rate: 48000,
                channels: Some(2),
                parameters: None,
            },
            MediaCodec {
                kind: "video".to_string(),
                mime_type: "video/VP8".to_string(),
                clock_rate: 90000,
                channels: None,
                parameters: None,
            },
            MediaCodec {
                kind: "video".to_string(),
                mime_type: "video/VP9".to_string(),
                clock_rate: 90000,
                channels: None,
                parameters: Some(Value::Object(vec![(
                    "profile-id".to_string(),
                    Value::Number(Number::PosInt(2))
                )])),
            },
            MediaCodec {
                kind: "video".to_string(),
                mime_type: "video/h264".to_string(),
                clock_rate: 90000,
                channels: None,
                parameters: Some(Value::Object(vec![
                    ("packetization-mode".to_string(), Value::Number(Number::PosInt(1))),
                    ("profile-level-id".to_string(), Value::String("4d0032".to_string())),
                    ("level-asymmetry-allowed".to_string(), Value::Number(Number::PosInt(1))),
                ])),
            },
        ]
    );
}
