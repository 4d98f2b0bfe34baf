//! The two kinds of record: a squad and a member of it.

use vstd::prelude::*;
use crate::address::Address;

verus! {

/// The fewest members a squad can be created for.
pub const MIN_SQUAD_SIZE: u8 = 2;

/// The most members a squad can be created for.
pub const MAX_SQUAD_SIZE: u8 = 8;

/// The longest name of a squad, in bytes.
pub const MAX_NAME_BYTES: usize = 32;

/// The bytes of a name: its UTF-8 encoding.
pub open spec fn name_bytes(name: Seq<char>) -> Seq<u8> {
    vstd::utf8::encode_utf8(name)
}

/// A group that pools stake and shares rewards.
#[derive(Clone, Debug, PartialEq, Eq)]
pub struct Squad {
    /// The identity that created the squad.
    pub authority: Address,
    /// The squad's name, fixed at creation.
    pub name: String,
    /// How many members the squad can hold, fixed at creation.
    pub max_members: u8,
    /// How many members have joined.
    pub member_count: u8,
    /// The sum of what the members have staked.
    pub total_staked: u64,
    /// The token balance that holds rewards not yet paid out.
    pub rewards_vault: Address,
    /// The tag that completes the squad's derived address.
    pub bump: u8,
}

/// One identity's standing in one squad.
#[derive(Clone, Copy, Debug, PartialEq, Eq)]
pub struct Member {
    /// The squad this record belongs to.
    pub squad: Address,
    /// The identity this record stands for.
    pub authority: Address,
    /// What the member has staked.
    pub stake_amount: u64,
    /// When the member joined.
    pub join_timestamp: i64,
    /// When the activity score was last written.
    pub last_activity_timestamp: i64,
    /// The activity score, as last supplied.
    pub activity_score: u32,
    /// The tag that completes the record's derived address.
    pub bump: u8,
}

impl Squad {
    /// Bytes that a stored squad takes at most: a tag of 8, then the fields.
    pub const LEN: usize = 8 + 32 + 4 + 32 + 1 + 1 + 8 + 32 + 1;

    /// What holds of every squad that the library's operations produce:
    /// the capacity is between 2 and 8, no more members have joined than
    /// it allows, and the name has at most 32 bytes.
    pub open spec fn wf(&self) -> bool {
        &&& 2 <= self.max_members <= 8
        &&& self.member_count <= self.max_members
        &&& name_bytes(self.name@).len() <= 32
    }

    /// The seeds under which the squad signs transfers out of its vaults:
    /// the bytes of the word "squad", the creator's address, the bytes of
    /// the name, and the bump.
    pub fn signer_seeds(&self) -> (r: Vec<Vec<u8>>)
        ensures
            r@.len() == 4,
            r@[0]@ == seq![115u8, 113u8, 117u8, 97u8, 100u8],
            r@[1]@ == self.authority@,
            r@[2]@ == name_bytes(self.name@),
            r@[3]@ == seq![self.bump],
    {
        let mut seeds: Vec<Vec<u8>> = Vec::new();
        seeds.push(vec![115u8, 113u8, 117u8, 97u8, 100u8]);
        seeds.push(vstd::slice::slice_to_vec(self.authority.bytes.as_slice()));
        seeds.push(vstd::slice::slice_to_vec(self.name.as_str().as_bytes()));
        seeds.push(vec![self.bump]);
        seeds
    }

    /// Whether no further member can join.
    pub fn is_full(&self) -> (r: bool)
        ensures
            r == (self.member_count >= self.max_members),
    {
        self.member_count >= self.max_members
    }
}

impl Member {
    /// Bytes that a stored member takes: a tag of 8, then the fields.
    pub const LEN: usize = 8 + 32 + 32 + 8 + 8 + 8 + 4 + 1;
}

} // verus!
