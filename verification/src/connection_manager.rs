//! Which of the peripherals in range is the hub that was asked for.
use vstd::prelude::*;

verus! {

/// Finds the hub among the peripherals in range. The scan itself is the
/// caller's; the manager decides which peripheral is meant.
#[derive(Clone, Copy, Debug, PartialEq, Eq)]
pub struct ConnectionManager {}

/// The name that is looked for: the one that was given, or the empty name.
pub open spec fn wanted_name(peripheral_name: Option<String>) -> Seq<char> {
    match peripheral_name {
        Some(name) => name@,
        None => Seq::empty(),
    }
}

/// The address that is looked for: the one that was given, or the address of
/// six zero bytes.
pub open spec fn wanted_address(bd_add: Option<[u8; 6]>) -> Seq<u8> {
    match bd_add {
        Some(address) => address@,
        None => seq![0u8, 0u8, 0u8, 0u8, 0u8, 0u8],
    }
}

/// Whether a peripheral is the one that is looked for: it has the name that
/// is looked for, or the address.
pub open spec fn is_wanted_peripheral(
    local_name: Seq<char>,
    address: Seq<u8>,
    peripheral_name: Option<String>,
    bd_add: Option<[u8; 6]>,
) -> bool {
    local_name == wanted_name(peripheral_name) || address == wanted_address(bd_add)
}

/// Whether two addresses are the same.
fn same_address(a: &[u8; 6], b: &[u8; 6]) -> (same: bool)
    ensures
        same == (a@ == b@),
{
    let same = a[0] == b[0] && a[1] == b[1] && a[2] == b[2] && a[3] == b[3] && a[4] == b[4] && a[5]
        == b[5];
    assert(same == (a@ =~= b@));
    same
}

impl ConnectionManager {
    pub fn new() -> (manager: Self) {
        Self {  }
    }

    /// Decides whether a peripheral with this name and address is the hub
    /// that is looked for, by name, by address or by both. Where no name is
    /// given the empty name is looked for, and where no address is given the
    /// address of six zero bytes.
    pub fn is_wanted(
        &self,
        local_name: &String,
        address: &[u8; 6],
        peripheral_name: &Option<String>,
        bd_add: &Option<[u8; 6]>,
    ) -> (wanted: bool)
        ensures
            wanted == is_wanted_peripheral(local_name@, address@, *peripheral_name, *bd_add),
    {
        let name_matches = match peripheral_name {
            Some(name) => *local_name == *name,
            None => {
                assert(local_name@.len() == 0 <==> local_name@ =~= Seq::<char>::empty());
                local_name.as_str().is_empty()
            },
        };
        let address_matches = match bd_add {
            Some(wanted) => same_address(address, wanted),
            None => {
                let zero: [u8; 6] = [0, 0, 0, 0, 0, 0];
                assert(zero@ =~= seq![0u8, 0u8, 0u8, 0u8, 0u8, 0u8]);
                same_address(address, &zero)
            },
        };
        name_matches || address_matches
    }
}

} // verus!
