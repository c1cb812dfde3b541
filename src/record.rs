use crate::error::ServiceError;
use vstd::prelude::*;

verus! {

/// The character that joins the three fields of a record into one set member.
pub open spec fn sep() -> char {
    '\u{1F9D9}'
}

/// The store key that holds the target URL of `id`.
pub open spec fn url_entry(id: Seq<char>) -> Seq<char> {
    seq!['r', 'e', 'd', 'i', 'r', '_'] + id
}

/// The store key that holds the edit key of `id`.
pub open spec fn key_entry(id: Seq<char>) -> Seq<char> {
    seq!['k', 'e', 'y', '_'] + id
}

/// The name of the store set that lists every record.
pub open spec fn record_set() -> Seq<char> {
    seq!['r', 'e', 'd', 'i', 'r', 's']
}

/// The set member that stands for the record `(id, url, key)`.
pub open spec fn encode(id: Seq<char>, url: Seq<char>, key: Seq<char>) -> Seq<char> {
    id + seq![sep()] + url + seq![sep()] + key
}

pub open spec fn free_of_sep(s: Seq<char>) -> bool {
    forall|i: int| 0 <= i < s.len() ==> s[i] != sep()
}

/// The three fields that a member splits into on the separator, if it
/// splits into exactly three.
pub open spec fn decode(s: Seq<char>) -> Option<(Seq<char>, Seq<char>, Seq<char>)> {
    if exists|t: (Seq<char>, Seq<char>, Seq<char>)| splits_into(s, t) {
        Some(choose|t: (Seq<char>, Seq<char>, Seq<char>)| splits_into(s, t))
    } else {
        None
    }
}

/// `s` is the member of the separator-free fields `t`.
pub open spec fn splits_into(s: Seq<char>, t: (Seq<char>, Seq<char>, Seq<char>)) -> bool {
    free_of_sep(t.0) && free_of_sep(t.1) && free_of_sep(t.2) && s == encode(t.0, t.1, t.2)
}

/// The identifiers that name routes of the service.
pub open spec fn is_reserved(id: Seq<char>) -> bool {
    id == seq!['a', 'd', 'd'] || id == seq!['a', 'l', 'l'] || id == seq!['a', 'd', 'm', 'i', 'n']
}

pub open spec fn id_allowed(id: Seq<char>) -> bool {
    !is_reserved(id) && free_of_sep(id)
}

/// Why `id` may not name a record, if it may not.
pub open spec fn id_verdict(id: Seq<char>) -> Result<(), ServiceError> {
    if is_reserved(id) {
        Err(ServiceError::ReservedId)
    } else if !free_of_sep(id) {
        Err(ServiceError::SeparatorInId)
    } else {
        Ok(())
    }
}

/// One redirect record: a short identifier, its target, and its edit key.
#[derive(Clone, Debug)]
pub struct Redirect {
    pub id: String,
    pub url: String,
    pub key: String,
}

/// The key of the store entry that holds the target URL of `id`.
pub fn url_entry_key(id: &str) -> (r: String)
    ensures
        r@ == url_entry(id@),
{
    let mut r = String::from_str("redir_");
    r.append(id);
    proof {
        reveal_strlit("redir_");
    }
    r
}

/// The key of the store entry that holds the edit key of `id`.
pub fn key_entry_key(id: &str) -> (r: String)
    ensures
        r@ == key_entry(id@),
{
    let mut r = String::from_str("key_");
    r.append(id);
    proof {
        reveal_strlit("key_");
    }
    r
}

/// The name of the set that lists every record.
pub fn record_set_name() -> (r: String)
    ensures
        r@ == record_set(),
{
    proof {
        reveal_strlit("redirs");
    }
    String::from_str("redirs")
}

/// Joins the three fields of a record into one set member.
pub fn encode_member(id: &str, url: &str, key: &str) -> (r: String)
    ensures
        r@ == encode(id@, url@, key@),
{
    let mut r = String::from_str(id);
    r.append("\u{1F9D9}");
    r.append(url);
    r.append("\u{1F9D9}");
    r.append(key);
    proof {
        reveal_strlit("\u{1F9D9}");
    }
    r
}

/// The first position at or after `from` that holds the separator.
fn find_sep(s: &str, from: usize) -> (r: Option<usize>)
    requires
        from <= s@.len(),
    ensures
        match r {
            Some(i) => from <= i < s@.len() && s@[i as int] == sep() && forall|k: int|
                from <= k < i ==> s@[k] != sep(),
            None => forall|k: int| from <= k < s@.len() ==> s@[k] != sep(),
        },
{
    let n = s.unicode_len();
    let mut i: usize = from;
    while i < n
        invariant
            n == s@.len(),
            from <= i <= n,
            forall|k: int| from <= k < i ==> s@[k] != sep(),
        decreases n - i,
    {
        if s.get_char(i) == '\u{1F9D9}' {
            return Some(i);
        }
        i = i + 1;
    }
    None
}

proof fn lemma_first_sep_of_encode(a: Seq<char>, b: Seq<char>, c: Seq<char>)
    requires
        free_of_sep(a),
        free_of_sep(b),
        free_of_sep(c),
    ensures
        ({
            let s = encode(a, b, c);
            &&& s.len() == a.len() + b.len() + c.len() + 2
            &&& s[a.len() as int] == sep()
            &&& s[(a.len() + 1 + b.len()) as int] == sep()
            &&& forall|k: int| 0 <= k < a.len() ==> s[k] != sep()
            &&& forall|k: int| a.len() < k < a.len() + 1 + b.len() ==> s[k] != sep()
            &&& forall|k: int| a.len() + 1 + b.len() < k < s.len() ==> s[k] != sep()
            &&& s.subrange(0, a.len() as int) == a
            &&& s.subrange((a.len() + 1) as int, (a.len() + 1 + b.len()) as int) == b
            &&& s.subrange((a.len() + 2 + b.len()) as int, s.len() as int) == c
        }),
{
    let s = encode(a, b, c);
    let j = (a.len() + 1 + b.len()) as int;
    assert forall|k: int| 0 <= k < a.len() implies s[k] != sep() by {
        assert(s[k] == a[k]);
    }
    assert forall|k: int| a.len() < k < j implies s[k] != sep() by {
        assert(s[k] == b[k - a.len() - 1]);
    }
    assert forall|k: int| j < k < s.len() implies s[k] != sep() by {
        assert(s[k] == c[k - j - 1]);
    }
    assert(s.subrange(0, a.len() as int) =~= a);
    assert(s.subrange((a.len() + 1) as int, j) =~= b);
    assert(s.subrange(j + 1, s.len() as int) =~= c);
}

/// Two records with separator-free fields encode to the same member only
/// when they are the same record.
pub proof fn lemma_encode_injective(
    a: Seq<char>,
    b: Seq<char>,
    c: Seq<char>,
    x: Seq<char>,
    y: Seq<char>,
    z: Seq<char>,
)
    requires
        free_of_sep(a),
        free_of_sep(b),
        free_of_sep(c),
        free_of_sep(x),
        free_of_sep(y),
        free_of_sep(z),
        encode(a, b, c) == encode(x, y, z),
    ensures
        a == x,
        b == y,
        c == z,
{
    lemma_first_sep_of_encode(a, b, c);
    lemma_first_sep_of_encode(x, y, z);
    let s = encode(a, b, c);
    if a.len() < x.len() {
        assert(s[a.len() as int] == sep());
    } else if x.len() < a.len() {
        assert(s[x.len() as int] == sep());
    }
    assert(a.len() == x.len());
    if b.len() < y.len() {
        assert(s[(a.len() + 1 + b.len()) as int] == sep());
    } else if y.len() < b.len() {
        assert(s[(a.len() + 1 + y.len()) as int] == sep());
    }
}

/// Decoding a member built from separator-free fields gives back those fields.
pub proof fn lemma_decode_encode(id: Seq<char>, url: Seq<char>, key: Seq<char>)
    requires
        free_of_sep(id),
        free_of_sep(url),
        free_of_sep(key),
    ensures
        decode(encode(id, url, key)) == Some((id, url, key)),
{
    let s = encode(id, url, key);
    assert(splits_into(s, (id, url, key)));
    let t = decode(s)->0;
    lemma_encode_injective(id, url, key, t.0, t.1, t.2);
}

/// Splits a set member into the record it stands for.
pub fn decode_member(s: &str) -> (r: Result<Redirect, ServiceError>)
    ensures
        match r {
            Ok(m) => decode(s@) == Some((m.id@, m.url@, m.key@)),
            Err(e) => decode(s@) is None && e == ServiceError::MalformedMember,
        },
{
    let n = s.unicode_len();
    let first = find_sep(s, 0);
    match first {
        None => {
            proof {
                assert forall|t: (Seq<char>, Seq<char>, Seq<char>)| !splits_into(s@, t) by {
                    let (a, b, c) = t;
                    if splits_into(s@, t) {
                        lemma_first_sep_of_encode(a, b, c);
                    }
                }
            }
            Err(ServiceError::MalformedMember)
        },
        Some(i) => {
            let second = find_sep(s, i + 1);
            match second {
                None => {
                    proof {
                        assert forall|t: (Seq<char>, Seq<char>, Seq<char>)|
                            !splits_into(s@, t) by {
                            let (a, b, c) = t;
                            if splits_into(s@, t) {
                                lemma_first_sep_of_encode(a, b, c);
                                assert(s@[a.len() as int] == sep());
                                assert(s@[(a.len() + 1 + b.len()) as int] == sep());
                            }
                        }
                    }
                    Err(ServiceError::MalformedMember)
                },
                Some(j) => {
                    let third = find_sep(s, j + 1);
                    match third {
                        Some(k) => {
                            proof {
                                assert forall|t: (Seq<char>, Seq<char>, Seq<char>)|
                                    !splits_into(s@, t) by {
                                    let (a, b, c) = t;
                                    if splits_into(s@, t) {
                                        lemma_first_sep_of_encode(a, b, c);
                                        assert(s@[a.len() as int] == sep());
                                        assert(s@[(a.len() + 1 + b.len()) as int] == sep());
                                        assert(s@[k as int] == sep());
                                    }
                                }
                            }
                            Err(ServiceError::MalformedMember)
                        },
                        None => {
                            let id = String::from_str(s.substring_char(0, i));
                            let url = String::from_str(s.substring_char(i + 1, j));
                            let key = String::from_str(s.substring_char(j + 1, n));
                            proof {
                                assert(free_of_sep(id@));
                                assert forall|q: int| 0 <= q < url@.len() implies url@[q]
                                    != sep() by {
                                    assert(url@[q] == s@[i + 1 + q]);
                                }
                                assert forall|q: int| 0 <= q < key@.len() implies key@[q]
                                    != sep() by {
                                    assert(key@[q] == s@[j + 1 + q]);
                                }
                                assert(s@ =~= encode(id@, url@, key@));
                                lemma_decode_encode(id@, url@, key@);
                            }
                            Ok(Redirect { id, url, key })
                        },
                    }
                },
            }
        },
    }
}

/// Why `id` may not name a record, if it may not.
pub fn check_id(id: &str) -> (r: Result<(), ServiceError>)
    ensures
        r == id_verdict(id@),
        r is Ok <==> id_allowed(id@),
{
    let given = String::from_str(id);
    let add = String::from_str("add");
    let all = String::from_str("all");
    let admin = String::from_str("admin");
    proof {
        reveal_strlit("add");
        reveal_strlit("all");
        reveal_strlit("admin");
        assert(add@ =~= seq!['a', 'd', 'd']);
        assert(all@ =~= seq!['a', 'l', 'l']);
        assert(admin@ =~= seq!['a', 'd', 'm', 'i', 'n']);
    }
    if given == add || given == all || given == admin {
        return Err(ServiceError::ReservedId);
    }
    match find_sep(id, 0) {
        Some(_) => Err(ServiceError::SeparatorInId),
        None => Ok(()),
    }
}

} // verus!
