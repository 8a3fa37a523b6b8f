//! Properties of a fungible token and their one-byte-per-field encoding.

use vstd::prelude::*;

verus! {

/// What the holder of a fungible token may do with it, and how many decimals
/// its amounts are shown with.
#[derive(Clone, Copy, Debug)]
pub struct FungibleTokenProperties {
    pub num_decimals: usize,
    pub can_freeze: bool,
    pub can_wipe: bool,
    pub can_pause: bool,
    pub can_mint: bool,
    pub can_burn: bool,
    pub can_change_owner: bool,
    pub can_upgrade: bool,
    pub can_add_special_roles: bool,
}

/// The byte that stands for a flag: 1 when set, 0 when clear.
pub open spec fn flag_byte(flag: bool) -> u8 {
    if flag {
        1u8
    } else {
        0u8
    }
}

/// Number of bytes in the encoding of a set of properties.
pub const ATTRIBUTES_LEN: usize = 9;

impl FungibleTokenProperties {
    /// The encoding as a sequence: the number of decimals reduced modulo 256,
    /// then one byte per flag in declaration order.
    pub open spec fn spec_attribute_bytes(self) -> Seq<u8> {
        seq![
            (self.num_decimals % 256) as u8,
            flag_byte(self.can_freeze),
            flag_byte(self.can_wipe),
            flag_byte(self.can_pause),
            flag_byte(self.can_mint),
            flag_byte(self.can_burn),
            flag_byte(self.can_change_owner),
            flag_byte(self.can_upgrade),
            flag_byte(self.can_add_special_roles),
        ]
    }

    /// Properties with every permission granted and the given number of
    /// decimals.
    pub fn all_allowed(num_decimals: usize) -> (props: Self)
        ensures
            props.num_decimals == num_decimals,
            props.can_freeze,
            props.can_wipe,
            props.can_pause,
            props.can_mint,
            props.can_burn,
            props.can_change_owner,
            props.can_upgrade,
            props.can_add_special_roles,
    {
        FungibleTokenProperties {
            num_decimals,
            can_freeze: true,
            can_wipe: true,
            can_pause: true,
            can_mint: true,
            can_burn: true,
            can_change_owner: true,
            can_upgrade: true,
            can_add_special_roles: true,
        }
    }

    /// Encodes the properties as NFT attributes: nine bytes, the low byte of
    /// the number of decimals followed by one byte per flag.
    pub fn attribute_bytes(&self) -> (bytes: Vec<u8>)
        ensures
            bytes@ == self.spec_attribute_bytes(),
            bytes@.len() == ATTRIBUTES_LEN,
    {
        let mut bytes: Vec<u8> = Vec::with_capacity(ATTRIBUTES_LEN);
        bytes.push((self.num_decimals % 256) as u8);
        bytes.push(flag(self.can_freeze));
        bytes.push(flag(self.can_wipe));
        bytes.push(flag(self.can_pause));
        bytes.push(flag(self.can_mint));
        bytes.push(flag(self.can_burn));
        bytes.push(flag(self.can_change_owner));
        bytes.push(flag(self.can_upgrade));
        bytes.push(flag(self.can_add_special_roles));
        assert(bytes@ =~= self.spec_attribute_bytes());
        bytes
    }
}

/// Turns a flag into its byte.
fn flag(value: bool) -> (byte: u8)
    ensures
        byte == flag_byte(value),
{
    if value {
        1
    } else {
        0
    }
}

} // verus!
