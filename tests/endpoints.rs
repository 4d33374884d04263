use shortlink::api::endpoints::{
    candidate, collision_message, created_message, plan_new, redirect_location, resolve, Command,
};
use shortlink::api::entry::Entry;
use shortlink::api::message::Message;
use shortlink::resolution::{destination_uri, Resolution};
use std::collections::HashMap;

/// A stand-in for the key-value store, with a clock in seconds.
struct Kv {
    now: u64,
    data: HashMap<String, (String, Option<u64>)>,
}

impl Kv {
    fn new() -> Kv {
        Kv { now: 0, data: HashMap::new() }
    }

    fn get(&self, k: &str) -> Option<String> {
        match self.data.get(k) {
            Some((_, Some(d))) if self.now >= *d => None,
            Some((v, _)) => Some(v.clone()),
            None => None,
        }
    }

    fn create(&mut self, e: &Entry) -> bool {
        let exists = self.get(&e.short_url).is_some();
        match plan_new(e, exists) {
            Command::Invalid | Command::Collision => false,
            Command::Store { key, value } => {
                self.data.insert(key, (value, None));
                true
            }
            Command::SetWithTtl { key, value, seconds } => {
                self.data.insert(key, (value, Some(self.now + seconds)));
                true
            }
        }
    }

    fn resolve(&self, k: &str, alive: bool) -> Resolution {
        resolve(&self.get(k), alive)
    }
}

fn entry(short: &str, long: &str) -> Entry {
    Entry::new(long.to_string(), short.to_string())
}

#[test]
fn create_then_resolve() {
    let mut kv = Kv::new();
    assert!(kv.create(&entry("abc", "example.com")));
    assert!(matches!(kv.resolve("abc", true), Resolution::Resolved(u) if u == "https://example.com"));
}

#[test]
fn existing_identifier_collides() {
    let mut kv = Kv::new();
    assert!(kv.create(&entry("g", "google.com")));
    assert!(!kv.create(&entry("g", "bing.com")));
    assert!(matches!(kv.resolve("g", true), Resolution::Resolved(u) if u == "https://google.com"));
    assert!(matches!(plan_new(&entry("g", "x"), true), Command::Collision));
}

#[test]
fn expiry_elapses() {
    let mut kv = Kv::new();
    let mut e = entry("t", "temp.org");
    e.set_expiration(1);
    assert!(e.has_expiration());
    assert_eq!(e.get_expiration(), 1);
    assert!(matches!(plan_new(&e, false), Command::SetWithTtl { seconds: 1, .. }));
    assert!(kv.create(&e));
    assert!(matches!(kv.resolve("t", true), Resolution::Resolved(_)));
    kv.now = 1;
    assert!(matches!(kv.resolve("t", true), Resolution::NotFound));
}

#[test]
fn zero_expiry_never_expires() {
    let mut e = entry("z", "z.org");
    e.set_expiration(0);
    assert!(matches!(plan_new(&e, false), Command::Store { .. }));
    assert_eq!(entry("z", "z.org").get_expiration(), 0);
    assert!(!entry("z", "z.org").has_expiration());
}

#[test]
fn empty_entry_is_refused() {
    let mut kv = Kv::new();
    assert!(matches!(plan_new(&entry("", "a.com"), false), Command::Invalid));
    assert!(matches!(plan_new(&entry("a", ""), false), Command::Invalid));
    assert!(!kv.create(&entry("", "a.com")));
    assert!(kv.data.is_empty());
    assert!(kv.create(&entry("a", "a.com")));
    assert!(matches!(plan_new(&entry("a", ""), true), Command::Collision));
    assert!(!kv.create(&entry("a", "")));
}

#[test]
fn never_created_is_not_found() {
    let kv = Kv::new();
    assert!(matches!(kv.resolve("nope", true), Resolution::NotFound));
    assert!(matches!(kv.resolve("nope", false), Resolution::NotFound));
}

#[test]
fn failed_probe_is_unreachable() {
    let mut kv = Kv::new();
    kv.create(&entry("d", "dead.example"));
    assert!(matches!(kv.resolve("d", false), Resolution::DestinationUnreachable(v) if v == "dead.example"));
}

#[test]
fn redirect_locations() {
    let s = "abc".to_string();
    assert_eq!(redirect_location(&s, &Resolution::NotFound), "/error?message=abc does not exist");
    assert_eq!(
        redirect_location(&s, &Resolution::DestinationUnreachable("x.y".to_string())),
        "/error?message=x.y does not exist"
    );
    assert_eq!(redirect_location(&s, &Resolution::Resolved("https://a".to_string())), "https://a");
}

#[test]
fn candidate_adds_scheme() {
    assert_eq!(candidate(&Some("a.b".to_string())), Some("https://a.b".to_string()));
    assert_eq!(candidate(&None), None);
    assert_eq!(destination_uri("https://x.org"), "https://x.org");
    assert_eq!(destination_uri("http:/x"), "https://http:/x");
    assert_eq!(destination_uri("ftp://x"), "ftp://x");
    assert_eq!(destination_uri("HTTPS://X"), "HTTPS://X");
    assert_eq!(destination_uri("svn+ssh://h"), "svn+ssh://h");
    assert_eq!(destination_uri("1ab://h"), "https://1ab://h");
    assert_eq!(destination_uri("://h"), "https://://h");
    assert_eq!(destination_uri("example.com"), "https://example.com");
}

#[test]
fn messages() {
    assert_eq!(collision_message(&"g".to_string()), "g already exists");
    assert_eq!(created_message(&"g".to_string()), "g created");
    assert_eq!(Message::new("hi".to_string()).message, "hi");
    assert_eq!(entry("s", "l").long_url(), "l");
    assert_eq!(entry("s", "l").short_url(), "s");
}
