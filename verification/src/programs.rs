//! The fixed program identities that the handler checks accounts against.

use vstd::prelude::*;
use crate::address::Address;

verus! {

/// Identity of the metadata program; the metadata-program account handle
/// must carry exactly this address.
pub open spec fn spec_metadata_program_id() -> Seq<u8> {
    seq![
        11u8, 112, 101, 177, 227, 209, 124, 69, 56, 157, 82, 127, 107, 4, 195, 205,
        88, 184, 108, 115, 26, 160, 253, 181, 73, 182, 209, 188, 3, 248, 41, 70,
    ]
}

pub fn metadata_program_id() -> (r: Address)
    ensures
        r@ == spec_metadata_program_id(),
{
    let bytes: [u8; 32] = [
        11u8, 112, 101, 177, 227, 209, 124, 69, 56, 157, 82, 127, 107, 4, 195, 205,
        88, 184, 108, 115, 26, 160, 253, 181, 73, 182, 209, 188, 3, 248, 41, 70,
    ];
    proof {
        assert(bytes@ =~= spec_metadata_program_id());
    }
    Address { bytes }
}

/// Identity of the token program that holds mints and token accounts.
pub open spec fn spec_token_program_id() -> Seq<u8> {
    seq![
        6u8, 221, 246, 225, 215, 101, 161, 147, 217, 203, 225, 70, 206, 235, 121, 172,
        28, 180, 133, 237, 95, 91, 55, 145, 58, 140, 245, 133, 126, 255, 0, 169,
    ]
}

pub fn token_program_id() -> (r: Address)
    ensures
        r@ == spec_token_program_id(),
{
    let bytes: [u8; 32] = [
        6u8, 221, 246, 225, 215, 101, 161, 147, 217, 203, 225, 70, 206, 235, 121, 172,
        28, 180, 133, 237, 95, 91, 55, 145, 58, 140, 245, 133, 126, 255, 0, 169,
    ];
    proof {
        assert(bytes@ =~= spec_token_program_id());
    }
    Address { bytes }
}

/// Identity of the associated-token program, which owns the canonical
/// derivation of per-(owner, mint) token accounts.
pub open spec fn spec_associated_token_program_id() -> Seq<u8> {
    seq![
        140u8, 151, 37, 143, 78, 36, 137, 241, 187, 61, 16, 41, 20, 142, 13, 131,
        11, 90, 19, 153, 218, 255, 16, 132, 4, 142, 123, 216, 219, 233, 248, 89,
    ]
}

pub fn associated_token_program_id() -> (r: Address)
    ensures
        r@ == spec_associated_token_program_id(),
{
    let bytes: [u8; 32] = [
        140u8, 151, 37, 143, 78, 36, 137, 241, 187, 61, 16, 41, 20, 142, 13, 131,
        11, 90, 19, 153, 218, 255, 16, 132, 4, 142, 123, 216, 219, 233, 248, 89,
    ];
    proof {
        assert(bytes@ =~= spec_associated_token_program_id());
    }
    Address { bytes }
}

/// Identity of the system program.
pub open spec fn spec_system_program_id() -> Seq<u8> {
    Seq::new(32, |i: int| 0u8)
}

pub fn system_program_id() -> (r: Address)
    ensures
        r@ == spec_system_program_id(),
{
    let bytes: [u8; 32] = [0u8; 32];
    proof {
        assert(bytes@ =~= spec_system_program_id());
    }
    Address { bytes }
}

/// Identity of the rent sysvar account.
pub open spec fn spec_rent_sysvar_id() -> Seq<u8> {
    seq![
        6u8, 167, 213, 23, 25, 44, 92, 81, 33, 140, 201, 76, 61, 74, 241, 127,
        88, 218, 238, 8, 155, 161, 253, 68, 227, 219, 217, 138, 0, 0, 0, 0,
    ]
}

pub fn rent_sysvar_id() -> (r: Address)
    ensures
        r@ == spec_rent_sysvar_id(),
{
    let bytes: [u8; 32] = [
        6u8, 167, 213, 23, 25, 44, 92, 81, 33, 140, 201, 76, 61, 74, 241, 127,
        88, 218, 238, 8, 155, 161, 253, 68, 227, 219, 217, 138, 0, 0, 0, 0,
    ];
    proof {
        assert(bytes@ =~= spec_rent_sysvar_id());
    }
    Address { bytes }
}

} // verus!
