use crate::error::ServiceError;
use crate::record::{decode, decode_member, url_entry, url_entry_key, Redirect};
use crate::store::{Command, CommandModel};
use vstd::prelude::*;

verus! {

/// Every member of `ms` splits into three fields, and `rs` holds those
/// fields, member by member.
pub open spec fn decodes_to(ms: Seq<String>, rs: Seq<Redirect>) -> bool {
    &&& rs.len() == ms.len()
    &&& forall|i: int|
        0 <= i < ms.len() ==> decode(#[trigger] ms[i]@) == Some((rs[i].id@, rs[i].url@, rs[i].key@))
}

/// The records of a listing, read from the members of the record set; the
/// store gives `None` where it holds no record set at all.
pub fn decode_listing(members: Option<Vec<String>>) -> (r: Result<Vec<Redirect>, ServiceError>)
    ensures
        members is None ==> r == Err::<Vec<Redirect>, ServiceError>(ServiceError::NoRecords),
        members matches Some(ms) ==> match r {
            Ok(rs) => decodes_to(ms@, rs@),
            Err(e) => e == ServiceError::MalformedMember && exists|i: int|
                0 <= i < ms@.len() && decode(#[trigger] ms@[i]@) is None,
        },
{
    match members {
        None => Err(ServiceError::NoRecords),
        Some(ms) => {
            let mut rs: Vec<Redirect> = Vec::new();
            let mut i: usize = 0;
            while i < ms.len()
                invariant
                    members matches Some(x) && x@ == ms@,
                    i <= ms@.len(),
                    decodes_to(ms@.subrange(0, i as int), rs@),
                decreases ms@.len() - i,
            {
                match decode_member(ms[i].as_str()) {
                    Ok(m) => {
                        rs.push(m);
                        assert(ms@.subrange(0, i + 1) =~= ms@.subrange(0, i as int).push(ms@[i as int]));
                    },
                    Err(e) => {
                        assert(decode(ms@[i as int]@) is None);
                        return Err(e);
                    },
                }
                i = i + 1;
            }
            assert(ms@.subrange(0, ms@.len() as int) =~= ms@);
            Ok(rs)
        },
    }
}

/// The read that resolves `id` to its target URL.
pub fn resolve(id: &str) -> (r: Command)
    ensures
        r@ == CommandModel::Get(url_entry(id@)),
{
    Command::Get(url_entry_key(id))
}

} // verus!
