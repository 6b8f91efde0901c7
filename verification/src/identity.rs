//! Caller identities and the allow-lists that the entry points consult.

use vstd::prelude::*;

verus! {

/// The longest identity, in bytes.
pub const MAX_IDENTITY_BYTES: usize = 29;

/// The textual form of the principal that holds exactly `bytes`.
pub uninterp spec fn principal_text_of(bytes: Seq<u8>) -> Seq<char>;

/// An opaque caller identity: between 0 and 29 bytes.
#[derive(Debug)]
pub struct Identity {
    bytes: Vec<u8>,
}

impl View for Identity {
    type V = Seq<u8>;

    closed spec fn view(&self) -> Seq<u8> {
        self.bytes@
    }
}

/// Calls `candid::Principal::from_slice` and then `Principal::to_text` on the
/// result. `from_slice` panics on more than 29 bytes, which `requires` rules
/// out. The text (a CRC32 of the bytes and the bytes, in base 32, grouped by
/// dashes) depends on the bytes alone, and is only given a name here.
#[verifier::external_body]
fn principal_text(bytes: &Vec<u8>) -> (text: String)
    requires
        bytes@.len() <= MAX_IDENTITY_BYTES,
    ensures
        text@ == principal_text_of(bytes@),
{
    candid::Principal::from_slice(bytes.as_slice()).to_text()
}

impl Identity {
    #[verifier::type_invariant]
    spec fn well_formed(self) -> bool {
        self.bytes@.len() <= MAX_IDENTITY_BYTES
    }

    /// The identity made of `bytes`, or `None` when there are more than 29.
    pub fn from_bytes(bytes: Vec<u8>) -> (r: Option<Identity>)
        ensures
            r is Some <==> bytes@.len() <= MAX_IDENTITY_BYTES,
            r matches Some(id) ==> id@ == bytes@,
    {
        if bytes.len() <= MAX_IDENTITY_BYTES {
            Some(Identity { bytes })
        } else {
            None
        }
    }

    /// The anonymous identity: the single byte 4.
    pub fn anonymous() -> (r: Identity)
        ensures
            r@ == seq![4u8],
    {
        let mut bytes: Vec<u8> = Vec::new();
        bytes.push(4u8);
        Identity { bytes }
    }

    /// The bytes of this identity.
    pub fn as_bytes(&self) -> (r: &Vec<u8>)
        ensures
            r@ == self@,
            r@.len() <= MAX_IDENTITY_BYTES,
    {
        proof {
            use_type_invariant(self);
        }
        &self.bytes
    }

    /// Whether two identities hold the same bytes.
    pub fn same(&self, other: &Identity) -> (r: bool)
        ensures
            r == (self@ == other@),
    {
        bytes_equal(&self.bytes, &other.bytes)
    }

    /// The textual form, as `candid` prints a principal.
    pub fn to_text(&self) -> (r: String)
        ensures
            r@ == principal_text_of(self@),
    {
        proof {
            use_type_invariant(self);
        }
        principal_text(&self.bytes)
    }
}

impl Clone for Identity {
    fn clone(&self) -> (r: Identity)
        ensures
            r@ == self@,
    {
        proof {
            use_type_invariant(self);
        }
        Identity { bytes: copy_bytes(&self.bytes) }
    }
}

/// Whether two byte vectors hold the same bytes.
pub fn bytes_equal(a: &Vec<u8>, b: &Vec<u8>) -> (r: bool)
    ensures
        r == (a@ == b@),
{
    if a.len() != b.len() {
        return false;
    }
    let mut i: usize = 0;
    while i < a.len()
        invariant
            i <= a.len(),
            a.len() == b.len(),
            forall|j: int| 0 <= j < i ==> a@[j] == b@[j],
        decreases a.len() - i,
    {
        if a[i] != b[i] {
            return false;
        }
        i = i + 1;
    }
    assert(a@ =~= b@);
    true
}

/// A fresh vector with the same bytes.
pub fn copy_bytes(a: &Vec<u8>) -> (r: Vec<u8>)
    ensures
        r@ == a@,
{
    let mut out: Vec<u8> = Vec::new();
    let mut i: usize = 0;
    while i < a.len()
        invariant
            i <= a.len(),
            out@ == a@.take(i as int),
        decreases a.len() - i,
    {
        out.push(a[i]);
        i = i + 1;
    }
    out
}

/// The byte strings of a list of identities, in order.
pub open spec fn identity_views(list: Seq<Identity>) -> Seq<Seq<u8>> {
    list.map_values(|id: Identity| id@)
}

/// A fresh list of the same identities.
pub fn copy_identities(list: &Vec<Identity>) -> (r: Vec<Identity>)
    ensures
        identity_views(r@) == identity_views(list@),
{
    let mut out: Vec<Identity> = Vec::new();
    let mut i: usize = 0;
    while i < list.len()
        invariant
            i <= list.len(),
            out@.len() == i,
            forall|j: int| 0 <= j < i ==> out@[j]@ == list@[j]@,
        decreases list.len() - i,
    {
        out.push(list[i].clone());
        i = i + 1;
    }
    out
}

/// Whether `who` occurs in `list`.
pub fn allow_list_contains(list: &Vec<Identity>, who: &Identity) -> (r: bool)
    ensures
        r == identity_views(list@).contains(who@),
{
    let mut i: usize = 0;
    while i < list.len()
        invariant
            i <= list.len(),
            forall|j: int| 0 <= j < i ==> identity_views(list@)[j] != who@,
        decreases list.len() - i,
    {
        if list[i].same(who) {
            assert(identity_views(list@)[i as int] == who@);
            return true;
        }
        i = i + 1;
    }
    false
}

/// Adds `who` to `list` unless it is there already; returns whether it was
/// added.
pub fn allow_list_add(list: &mut Vec<Identity>, who: Identity) -> (added: bool)
    ensures
        added == !identity_views(old(list)@).contains(who@),
        identity_views(final(list)@) == if added {
            identity_views(old(list)@).push(who@)
        } else {
            identity_views(old(list)@)
        },
{
    if allow_list_contains(list, &who) {
        false
    } else {
        list.push(who);
        true
    }
}

/// Removes every occurrence of `who` from `list`, keeping the order of the
/// others.
pub fn allow_list_remove(list: &mut Vec<Identity>, who: &Identity)
    ensures
        identity_views(final(list)@) == identity_views(old(list)@).filter(
            |id: Seq<u8>| id != who@,
        ),
{
    let ghost all = identity_views(list@);
    let ghost keep = |id: Seq<u8>| id != who@;
    let mut kept: Vec<Identity> = Vec::new();
    let mut i: usize = 0;
    while i < list.len()
        invariant
            i <= list.len(),
            all == identity_views(list@),
            keep == (|id: Seq<u8>| id != who@),
            identity_views(kept@) == all.take(i as int).filter(keep),
        decreases list.len() - i,
    {
        proof {
            reveal(Seq::filter);
            assert(all.take(i + 1).drop_last() =~= all.take(i as int));
        }
        if !list[i].same(who) {
            kept.push(list[i].clone());
        }
        i = i + 1;
    }
    assert(all.take(list.len() as int) =~= all);
    *list = kept;
}

} // verus!
