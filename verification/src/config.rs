use crate::json::{
    members_view, opt_value, push_member, Number, NumberView, Value, ValueView,
};
use crate::text::{
    clone_opt_text, decimal_value, opt_text, parse_u64, split, splits, texts, trim, trimmed,
};
use vstd::prelude::*;

verus! {

/// An address on which transports may listen, and the address that is announced in its
/// place.
#[derive(Debug, PartialEq)]
pub struct ListenIp {
    pub ip: String,
    pub announced_ip: Option<String>,
}

/// A configured listen address as mathematical data.
pub struct ListenIpView {
    pub ip: Seq<char>,
    pub announced_ip: Option<Seq<char>>,
}

impl View for ListenIp {
    type V = ListenIpView;

    open spec fn view(&self) -> ListenIpView {
        ListenIpView { ip: self.ip@, announced_ip: opt_text(self.announced_ip) }
    }
}

impl Clone for ListenIp {
    fn clone(&self) -> (r: ListenIp)
        ensures
            r@ == self@,
    {
        ListenIp { ip: self.ip.clone(), announced_ip: clone_opt_text(&self.announced_ip) }
    }
}

/// A copy of a list of listen addresses.
pub fn clone_listen_ips(ips: &Vec<ListenIp>) -> (r: Vec<ListenIp>)
    ensures
        listen_ips_view(r@) == listen_ips_view(ips@),
{
    let mut out: Vec<ListenIp> = Vec::new();
    let mut i: usize = 0;
    while i < ips.len()
        invariant
            i <= ips.len(),
            out@.len() == i,
            forall|j: int| 0 <= j < i ==> out@[j]@ == ips@[j]@,
        decreases ips.len() - i,
    {
        out.push(ips[i].clone());
        i += 1;
    }
    assert(listen_ips_view(out@) =~= listen_ips_view(ips@));
    out
}

/// The views of a list of listen addresses.
pub open spec fn listen_ips_view(ips: Seq<ListenIp>) -> Seq<ListenIpView> {
    Seq::new(ips.len(), |i: int| ips[i]@)
}

/// Settings of the transports.
#[derive(Debug, PartialEq)]
pub struct WebRtcConfig {
    pub listen_ips: Vec<ListenIp>,
}

/// Settings of the workers of the media engine.
#[derive(Debug, PartialEq)]
pub struct WorkerConfig {
    pub num_workers: usize,
    pub log_level: String,
    pub log_tags: Vec<String>,
    pub rtc_min_port: u16,
    pub rtc_max_port: u16,
}

/// A codec as the configuration names it.
#[derive(Debug, PartialEq)]
pub struct MediaCodec {
    pub kind: String,
    pub mime_type: String,
    pub clock_rate: u32,
    pub channels: Option<u8>,
    pub parameters: Option<Value>,
}

/// Settings of the routers.
#[derive(Debug, PartialEq)]
pub struct RouterConfig {
    pub media_codecs: Vec<MediaCodec>,
}

/// The configuration of the gateway. Addresses are held as text.
#[derive(Debug, PartialEq)]
pub struct Config {
    pub listen_addr: String,
    pub http_addr: Option<String>,
    pub worker: WorkerConfig,
    pub router: RouterConfig,
    pub webrtc: WebRtcConfig,
}

/// A codec of the configuration as mathematical data.
pub struct MediaCodecView {
    pub kind: Seq<char>,
    pub mime_type: Seq<char>,
    pub clock_rate: u32,
    pub channels: Option<u8>,
    pub parameters: Option<ValueView>,
}

impl View for MediaCodec {
    type V = MediaCodecView;

    open spec fn view(&self) -> MediaCodecView {
        MediaCodecView {
            kind: self.kind@,
            mime_type: self.mime_type@,
            clock_rate: self.clock_rate,
            channels: self.channels,
            parameters: opt_value(self.parameters),
        }
    }
}

/// The views of a list of codecs.
pub open spec fn media_codecs_view(codecs: Seq<MediaCodec>) -> Seq<MediaCodecView> {
    Seq::new(codecs.len(), |i: int| codecs[i]@)
}

/// The number `n` as a value.
pub open spec fn number(n: u64) -> ValueView {
    ValueView::Number(NumberView::PosInt(n))
}

/// The codecs of a configuration that names none: Opus with two channels at 48 kHz, and
/// VP8, VP9 with profile 2 and H264 at 90 kHz.
pub open spec fn default_codecs() -> Seq<MediaCodecView> {
    seq![
        MediaCodecView {
            kind: "audio"@,
            mime_type: "audio/opus"@,
            clock_rate: 48000,
            channels: Some(2u8),
            parameters: None,
        },
        MediaCodecView {
            kind: "video"@,
            mime_type: "video/VP8"@,
            clock_rate: 90000,
            channels: None,
            parameters: None,
        },
        MediaCodecView {
            kind: "video"@,
            mime_type: "video/VP9"@,
            clock_rate: 90000,
            channels: None,
            parameters: Some(ValueView::Object(seq![("profile-id"@, number(2))])),
        },
        MediaCodecView {
            kind: "video"@,
            mime_type: "video/h264"@,
            clock_rate: 90000,
            channels: None,
            parameters: Some(
                ValueView::Object(
                    seq![
                        ("packetization-mode"@, number(1)),
                        ("profile-level-id"@, ValueView::String("4d0032"@)),
                        ("level-asymmetry-allowed"@, number(1)),
                    ],
                ),
            ),
        },
    ]
}

/// What the environment says of the gateway: each setting as the text found there, or
/// nothing where the variable is not set.
#[derive(Debug, PartialEq)]
pub struct Environment {
    pub listen_addr: Option<String>,
    pub http_addr: Option<String>,
    pub num_workers: Option<String>,
    pub log_level: Option<String>,
    pub log_tags: Option<String>,
    pub rtc_min_port: Option<String>,
    pub rtc_max_port: Option<String>,
    pub announced_ip: Option<String>,
}

/// The setting `text`, or `fallback` where it is not set.
pub open spec fn text_or(text: Option<String>, fallback: Seq<char>) -> Seq<char> {
    match text {
        Some(t) => t@,
        None => fallback,
    }
}

/// The number that the setting `text` names, or `fallback` where it is not set, is no
/// decimal numeral, or names a number above `limit`.
pub open spec fn number_or(text: Option<String>, limit: u64, fallback: u64) -> u64 {
    match text {
        Some(t) => match decimal_value(t@) {
            Some(n) => if n <= limit {
                n
            } else {
                fallback
            },
            None => fallback,
        },
        None => fallback,
    }
}

/// True if `tags` are the parts of `text` between its commas, each without the white space
/// at its ends.
pub open spec fn tags_of(tags: Seq<Seq<char>>, text: Seq<char>) -> bool {
    exists|pieces: Seq<Seq<char>>| #[trigger]
        splits(pieces, text, ',') && tags == pieces.map_values(|p: Seq<char>| trimmed(p))
}

/// The setting `text`, or `fallback` where it is not set.
fn setting_or(text: Option<String>, fallback: &str) -> (r: String)
    ensures
        r@ == text_or(text, fallback@),
{
    match text {
        Some(t) => t,
        None => fallback.to_owned(),
    }
}

/// The number that the setting `text` names, or `fallback`.
fn setting_number(text: &Option<String>, limit: u64, fallback: u64) -> (r: u64)
    ensures
        r == number_or(*text, limit, fallback),
{
    match text {
        Some(t) => match parse_u64(t.as_str()) {
            Some(n) => if n <= limit {
                n
            } else {
                fallback
            },
            None => fallback,
        },
        None => fallback,
    }
}

/// The log tags that `text` names.
fn setting_tags(text: &str) -> (r: Vec<String>)
    ensures
        tags_of(texts(r@), text@),
{
    let pieces = split(text, ',');
    let mut tags: Vec<String> = Vec::new();
    let mut i: usize = 0;
    while i < pieces.len()
        invariant
            i <= pieces.len(),
            tags@.len() == i,
            forall|j: int| 0 <= j < i ==> tags@[j]@ == trimmed(pieces@[j]@),
        decreases pieces.len() - i,
    {
        tags.push(trim(pieces[i].as_str()));
        i += 1;
    }
    assert(texts(tags@) =~= texts(pieces@).map_values(|p: Seq<char>| trimmed(p)));
    assert(splits(texts(pieces@), text@, ','));
    tags
}

impl Config {
    /// The codecs of a configuration that names none.
    pub fn default_media_codecs() -> (r: Vec<MediaCodec>)
        ensures
            media_codecs_view(r@) == default_codecs(),
    {
        let opus = MediaCodec {
            kind: "audio".to_owned(),
            mime_type: "audio/opus".to_owned(),
            clock_rate: 48000,
            channels: Some(2),
            parameters: None,
        };
        let vp8 = MediaCodec {
            kind: "video".to_owned(),
            mime_type: "video/VP8".to_owned(),
            clock_rate: 90000,
            channels: None,
            parameters: None,
        };
        let mut profile: Vec<(String, Value)> = Vec::new();
        assert(members_view(profile@) =~= Seq::empty());
        push_member(&mut profile, "profile-id", Value::Number(Number::PosInt(2)));
        assert(members_view(profile@) =~= seq![("profile-id"@, number(2))]);
        let vp9 = MediaCodec {
            kind: "video".to_owned(),
            mime_type: "video/VP9".to_owned(),
            clock_rate: 90000,
            channels: None,
            parameters: Some(Value::object(profile)),
        };
        let mut packets: Vec<(String, Value)> = Vec::new();
        assert(members_view(packets@) =~= Seq::empty());
        push_member(&mut packets, "packetization-mode", Value::Number(Number::PosInt(1)));
        push_member(&mut packets, "profile-level-id", Value::text("4d0032"));
        push_member(&mut packets, "level-asymmetry-allowed", Value::Number(Number::PosInt(1)));
        assert(members_view(packets@) =~= seq![
            ("packetization-mode"@, number(1)),
            ("profile-level-id"@, ValueView::String("4d0032"@)),
            ("level-asymmetry-allowed"@, number(1)),
        ]);
        let h264 = MediaCodec {
            kind: "video".to_owned(),
            mime_type: "video/h264".to_owned(),
            clock_rate: 90000,
            channels: None,
            parameters: Some(Value::object(packets)),
        };
        let mut codecs: Vec<MediaCodec> = Vec::new();
        codecs.push(opus);
        codecs.push(vp8);
        codecs.push(vp9);
        codecs.push(h264);
        assert(media_codecs_view(codecs@) =~= default_codecs());
        codecs
    }

    /// The configuration that the environment `env` asks for. A setting that is not there
    /// has its default: the gateway listens on `0.0.0.0:3000`, with one worker, the log
    /// level `warn`, the log tag `info` and the ports 10000 to 10100. A number that cannot
    /// be read has its default too. Transports listen on `0.0.0.0` and announce the
    /// address that the environment names.
    pub fn load(env: Environment) -> (r: Config)
        ensures
            r.listen_addr@ == text_or(env.listen_addr, "0.0.0.0:3000"@),
            opt_text(r.http_addr) == opt_text(env.http_addr),
            r.worker.num_workers == number_or(env.num_workers, usize::MAX as u64, 1),
            r.worker.log_level@ == text_or(env.log_level, "warn"@),
            tags_of(texts(r.worker.log_tags@), text_or(env.log_tags, "info"@)),
            r.worker.rtc_min_port == number_or(env.rtc_min_port, 65535, 10000),
            r.worker.rtc_max_port == number_or(env.rtc_max_port, 65535, 10100),
            media_codecs_view(r.router.media_codecs@) == default_codecs(),
            listen_ips_view(r.webrtc.listen_ips@) == seq![
                ListenIpView { ip: "0.0.0.0"@, announced_ip: opt_text(env.announced_ip) },
            ],
    {
        let num_workers = setting_number(&env.num_workers, usize::MAX as u64, 1) as usize;
        let rtc_min_port = setting_number(&env.rtc_min_port, 65535, 10000) as u16;
        let rtc_max_port = setting_number(&env.rtc_max_port, 65535, 10100) as u16;
        let log_tags = setting_tags(setting_or(env.log_tags, "info").as_str());
        let mut listen_ips: Vec<ListenIp> = Vec::new();
        listen_ips.push(ListenIp { ip: "0.0.0.0".to_owned(), announced_ip: env.announced_ip });
        assert(listen_ips_view(listen_ips@) =~= seq![
            ListenIpView { ip: "0.0.0.0"@, announced_ip: opt_text(env.announced_ip) },
        ]);
        Config {
            listen_addr: setting_or(env.listen_addr, "0.0.0.0:3000"),
            http_addr: env.http_addr,
            worker: WorkerConfig {
                num_workers,
                log_level: setting_or(env.log_level, "warn"),
                log_tags,
                rtc_min_port,
                rtc_max_port,
            },
            router: RouterConfig { media_codecs: Config::default_media_codecs() },
            webrtc: WebRtcConfig { listen_ips },
        }
    }
}

} // verus!
