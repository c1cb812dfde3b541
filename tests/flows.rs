use shortener::create::{CreateFlow, Created};
use shortener::delete::DeleteFlow;
use shortener::error::{ErrorKind, ServiceError};
use shortener::gate::{authorize, authorize_listing};
use shortener::listing::{decode_listing, resolve};
use shortener::record::{
    check_id, decode_member, encode_member, key_entry_key, record_set_name, url_entry_key,
};
use shortener::store::{Command, Reply, Step};
use shortener::token::{generate_random_string, TOKEN_LEN};
use std::collections::{HashMap, HashSet};

#[derive(Default)]
struct Mem {
    kv: HashMap<String, String>,
    sets: HashMap<String, HashSet<String>>,
    fail_writes: bool,
    commands: usize,
}

impl Mem {
    fn exec(&mut self, c: &Command) -> Reply {
        self.commands += 1;
        match c {
            Command::Get(k) => Reply::Value(self.kv.get(k).cloned()),
            _ if self.fail_writes => Reply::Failed,
            Command::Put(k, v) => {
                self.kv.insert(k.clone(), v.clone());
                Reply::Done
            }
            Command::Delete(k) => {
                self.kv.remove(k);
                Reply::Done
            }
            Command::AddMember(s, m) => {
                self.sets.entry(s.clone()).or_default().insert(m.clone());
                Reply::Done
            }
            Command::RemoveMember(s, m) => {
                self.sets.entry(s.clone()).or_default().remove(m);
                Reply::Done
            }
        }
    }

    fn resolve(&mut self, id: &str) -> Option<String> {
        match self.exec(&resolve(id)) {
            Reply::Value(v) => v,
            _ => None,
        }
    }

    fn members(&self) -> Option<Vec<String>> {
        self.sets.get("redirs").map(|s| s.iter().cloned().collect())
    }
}

fn create(
    mem: &mut Mem,
    password: Option<&str>,
    provided: Option<&str>,
    id: Option<&str>,
    url: &str,
) -> Result<Created, ServiceError> {
    let (mut flow, mut step) = CreateFlow::start(
        &password.map(String::from),
        &provided.map(String::from),
        id.map(String::from),
        url.to_string(),
    );
    loop {
        match step {
            Step::Finish(r) => return r,
            Step::Run(c) => {
                let reply = mem.exec(&c);
                step = flow.resume(reply);
            }
        }
    }
}

fn delete(
    mem: &mut Mem,
    password: Option<&str>,
    provided: Option<&str>,
    id: &str,
    key: &str,
) -> Result<(), ServiceError> {
    let (mut flow, mut step) = DeleteFlow::start(
        &password.map(String::from),
        &provided.map(String::from),
        id.to_string(),
        key.to_string(),
    );
    loop {
        match step {
            Step::Finish(r) => return r,
            Step::Run(c) => {
                let reply = mem.exec(&c);
                step = flow.resume(reply);
            }
        }
    }
}

fn is_token(s: &str) -> bool {
    s.chars().count() == TOKEN_LEN && s.chars().all(|c| c.is_ascii_alphanumeric())
}

#[test]
fn gate_missing_password_is_bad_request() {
    let r = authorize(&Some("s".to_string()), &None);
    assert_eq!(r, Err(ServiceError::MissingPassword));
    assert_eq!(ServiceError::MissingPassword.kind(), ErrorKind::BadRequest);
}

#[test]
fn gate_wrong_password_is_unauthorized() {
    let r = authorize(&Some("s".to_string()), &Some("t".to_string()));
    assert_eq!(r, Err(ServiceError::WrongPassword));
    assert_eq!(ServiceError::WrongPassword.kind(), ErrorKind::Unauthorized);
}

#[test]
fn gate_right_password_passes() {
    assert_eq!(authorize(&Some("s".to_string()), &Some("s".to_string())), Ok(()));
}

#[test]
fn gate_open_mode_passes_anything() {
    assert_eq!(authorize(&None, &None), Ok(()));
    assert_eq!(authorize(&None, &Some("x".to_string())), Ok(()));
}

#[test]
fn gate_is_case_sensitive() {
    let r = authorize(&Some("Secret".to_string()), &Some("secret".to_string()));
    assert_eq!(r, Err(ServiceError::WrongPassword));
}

#[test]
fn listing_closed_without_password() {
    assert_eq!(authorize_listing(&None, "x"), Err(ServiceError::ListingClosed));
    assert_eq!(ServiceError::ListingClosed.kind().status(), 401);
}

#[test]
fn listing_password_checked() {
    let admin = Some("adm".to_string());
    assert_eq!(authorize_listing(&admin, "adm"), Ok(()));
    assert_eq!(authorize_listing(&admin, "nope"), Err(ServiceError::WrongPassword));
}

#[test]
fn decode_listed_member() {
    let r = decode_member("abc\u{1F9D9}http://x\u{1F9D9}k1").unwrap();
    assert_eq!(r.id, "abc");
    assert_eq!(r.url, "http://x");
    assert_eq!(r.key, "k1");
}

#[test]
fn decode_member_with_empty_fields() {
    let r = decode_member("\u{1F9D9}\u{1F9D9}").unwrap();
    assert_eq!(r.id, "");
    assert_eq!(r.url, "");
    assert_eq!(r.key, "");
}

#[test]
fn decode_member_with_two_fields_fails() {
    let r = decode_member("abc\u{1F9D9}http://x");
    assert!(matches!(r, Err(ServiceError::MalformedMember)));
    assert_eq!(ServiceError::MalformedMember.kind().status(), 500);
}

#[test]
fn decode_member_with_four_fields_fails() {
    let r = decode_member("a\u{1F9D9}b\u{1F9D9}c\u{1F9D9}d");
    assert!(matches!(r, Err(ServiceError::MalformedMember)));
    assert!(matches!(decode_member("plain"), Err(ServiceError::MalformedMember)));
}

#[test]
fn encode_then_decode() {
    let m = encode_member("abc", "http://x", "k1");
    assert_eq!(m, "abc\u{1F9D9}http://x\u{1F9D9}k1");
    let r = decode_member(&m).unwrap();
    assert_eq!((r.id.as_str(), r.url.as_str(), r.key.as_str()), ("abc", "http://x", "k1"));
}

#[test]
fn entry_keys() {
    assert_eq!(url_entry_key("foo"), "redir_foo");
    assert_eq!(key_entry_key("foo"), "key_foo");
    assert_eq!(record_set_name(), "redirs");
}

#[test]
fn reserved_ids_refused() {
    for id in ["add", "all", "admin"] {
        assert_eq!(check_id(id), Err(ServiceError::ReservedId));
    }
    assert_eq!(check_id("a\u{1F9D9}b"), Err(ServiceError::SeparatorInId));
    assert_eq!(check_id("foo"), Ok(()));
    assert_eq!(check_id("adds"), Ok(()));
    assert_eq!(ServiceError::ReservedId.kind().status(), 400);
}

#[test]
fn random_string_shape() {
    let s = generate_random_string();
    assert!(is_token(&s));
}

#[test]
fn listing_decodes_all_members() {
    let ms = vec![
        "a\u{1F9D9}http://a\u{1F9D9}ka".to_string(),
        "b\u{1F9D9}http://b\u{1F9D9}kb".to_string(),
    ];
    let rs = decode_listing(Some(ms)).unwrap();
    assert_eq!(rs.len(), 2);
    assert_eq!(rs[0].id, "a");
    assert_eq!(rs[1].url, "http://b");
    assert_eq!(rs[1].key, "kb");
}

#[test]
fn listing_without_set_is_not_found() {
    let r = decode_listing(None);
    assert!(matches!(r, Err(ServiceError::NoRecords)));
    assert_eq!(ServiceError::NoRecords.kind().status(), 404);
}

#[test]
fn listing_with_malformed_member_fails() {
    let ms = vec!["a\u{1F9D9}http://a\u{1F9D9}ka".to_string(), "broken".to_string()];
    assert!(matches!(decode_listing(Some(ms)), Err(ServiceError::MalformedMember)));
}

#[test]
fn generated_id_resolves_to_url() {
    let mut mem = Mem::default();
    let c = create(&mut mem, None, None, None, "http://example.org/long").unwrap();
    assert!(is_token(&c.id));
    assert!(is_token(&c.key));
    assert_eq!(mem.resolve(&c.id), Some("http://example.org/long".to_string()));
    assert_eq!(mem.kv.get(&format!("key_{}", c.id)), Some(&c.key));
}

#[test]
fn taken_id_conflicts_without_writes() {
    let mut mem = Mem::default();
    create(&mut mem, None, None, Some("foo"), "http://one").unwrap();
    let kv_before = mem.kv.clone();
    let sets_before = mem.sets.clone();
    let r = create(&mut mem, None, None, Some("foo"), "http://two");
    assert!(matches!(r, Err(ServiceError::IdInUse)));
    assert_eq!(ServiceError::IdInUse.kind().status(), 409);
    assert_eq!(mem.kv, kv_before);
    assert_eq!(mem.sets, sets_before);
}

#[test]
fn reserved_id_refused_without_store_access() {
    let mut mem = Mem::default();
    for id in ["add", "all", "admin", "x\u{1F9D9}y"] {
        let r = create(&mut mem, None, None, Some(id), "http://x");
        assert_eq!(r.unwrap_err().kind(), ErrorKind::BadRequest);
    }
    assert_eq!(mem.commands, 0);
}

#[test]
fn create_delete_round_trip() {
    let mut mem = Mem::default();
    let pw = Some("pw");
    let c = create(&mut mem, pw, pw, None, "http://round.trip").unwrap();
    assert_eq!(delete(&mut mem, pw, pw, &c.id, &c.key), Ok(()));
    assert_eq!(mem.resolve(&c.id), None);
    assert!(mem.kv.is_empty());
    assert!(mem.members().unwrap().is_empty());
}

#[test]
fn second_delete_is_not_found() {
    let mut mem = Mem::default();
    let c = create(&mut mem, None, None, Some("twice"), "http://x").unwrap();
    assert_eq!(delete(&mut mem, None, None, "twice", &c.key), Ok(()));
    assert_eq!(delete(&mut mem, None, None, "twice", &c.key), Err(ServiceError::UnknownId));
}

#[test]
fn scenario_create_resolve_delete() {
    let mut mem = Mem::default();
    let c = create(&mut mem, None, None, Some("foo"), "http://example.com").unwrap();
    assert_eq!(c.id, "foo");
    assert_eq!(c.key.chars().count(), 10);
    assert_eq!(mem.resolve("foo"), Some("http://example.com".to_string()));
    let wrong = delete(&mut mem, None, None, "foo", "not-the-key");
    assert_eq!(wrong, Err(ServiceError::WrongKey));
    assert_eq!(wrong.unwrap_err().kind().status(), 401);
    assert_eq!(delete(&mut mem, None, None, "foo", &c.key), Ok(()));
    assert_eq!(mem.resolve("foo"), None);
}

#[test]
fn listing_after_creates() {
    let mut mem = Mem::default();
    let c = create(&mut mem, None, None, Some("foo"), "http://example.com").unwrap();
    let rs = decode_listing(mem.members()).unwrap();
    assert_eq!(rs.len(), 1);
    assert_eq!(rs[0].id, "foo");
    assert_eq!(rs[0].url, "http://example.com");
    assert_eq!(rs[0].key, c.key);
}

#[test]
fn delete_of_unknown_id_is_not_found() {
    let mut mem = Mem::default();
    let r = delete(&mut mem, None, None, "ghost", "k");
    assert_eq!(r, Err(ServiceError::UnknownId));
    assert_eq!(ServiceError::UnknownId.kind().status(), 404);
}

#[test]
fn delete_without_edit_key_is_not_found() {
    let mut mem = Mem::default();
    mem.kv.insert("redir_half".to_string(), "http://x".to_string());
    assert_eq!(delete(&mut mem, None, None, "half", "k"), Err(ServiceError::NoEditKey));
}

#[test]
fn create_needs_configured_password() {
    let mut mem = Mem::default();
    let r = create(&mut mem, Some("pw"), None, Some("foo"), "http://x");
    assert!(matches!(r, Err(ServiceError::MissingPassword)));
    let r = create(&mut mem, Some("pw"), Some("bad"), Some("foo"), "http://x");
    assert!(matches!(r, Err(ServiceError::WrongPassword)));
    assert_eq!(mem.commands, 0);
}

#[test]
fn delete_needs_configured_password() {
    let mut mem = Mem::default();
    let c = create(&mut mem, None, None, Some("foo"), "http://x").unwrap();
    assert_eq!(delete(&mut mem, Some("pw"), None, "foo", &c.key), Err(ServiceError::MissingPassword));
    assert_eq!(mem.resolve("foo"), Some("http://x".to_string()));
}

#[test]
fn failed_write_is_internal() {
    let mut mem = Mem { fail_writes: true, ..Mem::default() };
    let r = create(&mut mem, None, None, Some("foo"), "http://x");
    assert!(matches!(r, Err(ServiceError::Store)));
    assert_eq!(ServiceError::Store.kind().status(), 500);
}

#[test]
fn concurrent_creates_last_write_wins() {
    let mut mem = Mem::default();
    let (mut a, mut sa) = CreateFlow::start(&None, &None, Some("dup".to_string()), "http://a".to_string());
    let (mut b, mut sb) = CreateFlow::start(&None, &None, Some("dup".to_string()), "http://b".to_string());
    // Both uniqueness checks run before either write.
    if let Step::Run(c) = &sa { let r = mem.exec(c); sa = a.resume(r); }
    if let Step::Run(c) = &sb { let r = mem.exec(c); sb = b.resume(r); }
    let ra = loop {
        match sa {
            Step::Finish(r) => break r,
            Step::Run(c) => { let r = mem.exec(&c); sa = a.resume(r); }
        }
    };
    let rb = loop {
        match sb {
            Step::Finish(r) => break r,
            Step::Run(c) => { let r = mem.exec(&c); sb = b.resume(r); }
        }
    };
    let ka = ra.unwrap().key;
    let kb = rb.unwrap().key;
    assert_eq!(mem.resolve("dup"), Some("http://b".to_string()));
    assert_eq!(mem.kv.get("key_dup"), Some(&kb));
    let listed = mem.members().unwrap();
    assert_eq!(listed.len(), 2);
    assert!(listed.contains(&format!("dup\u{1F9D9}http://a\u{1F9D9}{ka}")));
    assert!(listed.contains(&format!("dup\u{1F9D9}http://b\u{1F9D9}{kb}")));
}
