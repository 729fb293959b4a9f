//! IP addresses, held in the text form in which they are handed on.

use crate::text::same_text;
use vstd::prelude::*;

verus! {

/// The addresses that `mdns_sd` reads from a text, each written as the standard
/// library prints it; `None` where the text does not read as addresses.
pub uninterp spec fn ip_addrs_of(text: Seq<char>) -> Option<Set<Seq<char>>>;

/// The characters of each string.
pub open spec fn texts(v: Seq<String>) -> Seq<Seq<char>> {
    v.map_values(|s: String| s@)
}

/// Calls `mdns_sd::AsIpAddrs::as_ip_addrs` for `&str`: one address, or several that
/// commas part. Claimed of it: whether it succeeds, and which addresses come out,
/// depends on the text alone; and the loopback address `127.0.0.1` reads as just
/// itself. The order in which the addresses come is open.
#[verifier::external_body]
fn read_ip_addrs(text: &str) -> (read: Option<Vec<String>>)
    ensures
        read is Some <==> ip_addrs_of(text@) is Some,
        read matches Some(found) ==> ip_addrs_of(text@) == Some(texts(found@).to_set()),
        text@ == "127.0.0.1"@ ==> read is Some && texts(read->0@).to_set() == set!["127.0.0.1"@],
{
    let addrs = mdns_sd::AsIpAddrs::as_ip_addrs(&text).ok()?;
    Some(addrs.iter().map(|a| a.to_string()).collect())
}

/// `text` is how exactly one IP address is printed.
pub open spec fn is_ip_text(text: Seq<char>) -> bool {
    ip_addrs_of(text) == Some(set![text])
}

/// An IP address. Two of them are the same address exactly when their texts are equal.
#[derive(Debug, Hash)]
pub struct IpAddr {
    text: String,
}

impl View for IpAddr {
    type V = Seq<char>;

    closed spec fn view(&self) -> Seq<char> {
        self.text@
    }
}

impl IpAddr {
    /// What every address keeps: its text is how one IP address is printed.
    #[verifier::type_invariant]
    pub open spec fn well_formed(self) -> bool {
        is_ip_text(self@)
    }

    /// The address that `text` is the printed form of. There is none where `text` does
    /// not read as an address, lists several, or writes one in another way than it is
    /// printed.
    pub fn from_text(text: &str) -> (addr: Option<IpAddr>)
        ensures
            addr is Some <==> is_ip_text(text@),
            addr matches Some(a) ==> a@ == text@,
            text@ == "127.0.0.1"@ ==> addr is Some,
    {
        let found = match read_ip_addrs(text) {
            Some(found) => found,
            None => return None,
        };
        if found.len() == 0 {
            assert(!texts(found@).to_set().contains(text@));
            return None;
        }
        let mut i: usize = 0;
        while i < found.len()
            invariant
                i <= found.len(),
                ip_addrs_of(text@) == Some(texts(found@).to_set()),
                text@ == "127.0.0.1"@ ==> is_ip_text(text@),
                forall|j: int| 0 <= j < i ==> #[trigger] texts(found@)[j] == text@,
            decreases found.len() - i,
        {
            if !same_text(found[i].as_str(), text) {
                proof {
                    assert(texts(found@)[i as int] == found@[i as int]@);
                    assert(texts(found@).to_set().contains(found@[i as int]@));
                }
                return None;
            }
            i = i + 1;
        }
        proof {
            assert(texts(found@)[0] == text@);
            assert(texts(found@).to_set() =~= set![text@]);
        }
        Some(IpAddr { text: text.to_owned() })
    }

    /// The loopback address `127.0.0.1`.
    pub fn localhost() -> (addr: IpAddr)
        ensures
            addr@ == "127.0.0.1"@,
    {
        IpAddr::from_text("127.0.0.1").unwrap()
    }

    /// The address as text.
    pub fn to_text(&self) -> (text: String)
        ensures
            text@ == self@,
    {
        self.text.clone()
    }
}

impl Clone for IpAddr {
    fn clone(&self) -> (copy: IpAddr)
        ensures
            copy == *self,
    {
        proof {
            use_type_invariant(self);
        }
        IpAddr { text: self.text.clone() }
    }
}

impl PartialEq for IpAddr {
    fn eq(&self, other: &IpAddr) -> (same: bool) {
        self.text == other.text
    }
}

impl vstd::std_specs::cmp::PartialEqSpecImpl for IpAddr {
    open spec fn obeys_eq_spec() -> bool {
        true
    }

    open spec fn eq_spec(&self, other: &IpAddr) -> bool {
        self@ == other@
    }
}

impl Eq for IpAddr {
}

} // verus!
