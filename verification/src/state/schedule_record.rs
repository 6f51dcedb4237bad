//! The stored form of a schedule record: a fixed layout of 219 bytes.
//!
//! | bytes      | field                                   |
//! |------------|-----------------------------------------|
//! | 0..8       | tag of the record kind                  |
//! | 8..16      | schedule_id, little-endian              |
//! | 16..48     | recipient                               |
//! | 48..80     | recipient_token_account                 |
//! | 80..112    | mint                                    |
//! | 112..144   | token_vault                             |
//! | 144..176   | depositor                               |
//! | 176..184   | total_amount, little-endian             |
//! | 184..192   | cliff_timestamp, two's complement       |
//! | 192..200   | vesting_start_timestamp                 |
//! | 200..208   | vesting_end_timestamp                   |
//! | 208..216   | amount_transferred, little-endian       |
//! | 216        | source_category, 0 to 5                 |
//! | 217        | is_initialized, 0 or 1                  |
//! | 218        | bump                                    |

use vstd::prelude::*;
use vstd::bytes::{
    lemma_auto_spec_u64_to_from_le_bytes,
    spec_u64_from_le_bytes,
    spec_u64_to_le_bytes,
    u64_from_le_bytes,
    u64_to_le_bytes,
};
use vstd::slice::slice_subrange;
use crate::address::Address;
use crate::errors::VestingError;
use crate::state::vesting_schedule::{SourceCategory, VestingSchedule};

verus! {

/// The eight bytes in front of every stored schedule record.
pub const VESTING_SCHEDULE_DISCRIMINATOR: [u8; 8] = [130, 200, 173, 148, 39, 75, 243, 147];

/// The byte that stands for an accounting tag.
pub open spec fn category_tag(category: SourceCategory) -> u8 {
    match category {
        SourceCategory::Public => 0,
        SourceCategory::Ecosystem => 1,
        SourceCategory::Team => 2,
        SourceCategory::Liquidity => 3,
        SourceCategory::Strategic => 4,
        SourceCategory::Foundation => 5,
    }
}

/// The byte that stands for a flag.
pub open spec fn flag_byte(flag: bool) -> u8 {
    if flag {
        1
    } else {
        0
    }
}

/// The `len` bytes of `data` from `at` on.
pub open spec fn field(data: Seq<u8>, at: int, len: int) -> Seq<u8> {
    data.subrange(at, at + len)
}

/// The eight bytes of a timestamp: those of the unsigned number with the
/// same bits.
pub open spec fn timestamp_bytes(t: i64) -> Seq<u8> {
    spec_u64_to_le_bytes(t as u64)
}

/// The first 219 bytes of `data` are the stored form of `schedule`.
pub open spec fn is_record_of(data: Seq<u8>, schedule: VestingSchedule) -> bool {
    &&& data.len() >= 219
    &&& field(data, 0, 8) == VESTING_SCHEDULE_DISCRIMINATOR@
    &&& field(data, 8, 8) == spec_u64_to_le_bytes(schedule.schedule_id)
    &&& field(data, 16, 32) == schedule.recipient.bytes@
    &&& field(data, 48, 32) == schedule.recipient_token_account.bytes@
    &&& field(data, 80, 32) == schedule.mint.bytes@
    &&& field(data, 112, 32) == schedule.token_vault.bytes@
    &&& field(data, 144, 32) == schedule.depositor.bytes@
    &&& field(data, 176, 8) == spec_u64_to_le_bytes(schedule.total_amount)
    &&& field(data, 184, 8) == timestamp_bytes(schedule.cliff_timestamp)
    &&& field(data, 192, 8) == timestamp_bytes(schedule.vesting_start_timestamp)
    &&& field(data, 200, 8) == timestamp_bytes(schedule.vesting_end_timestamp)
    &&& field(data, 208, 8) == spec_u64_to_le_bytes(schedule.amount_transferred)
    &&& data[216] == category_tag(schedule.source_category)
    &&& data[217] == flag_byte(schedule.is_initialized)
    &&& data[218] == schedule.bump
}

/// A timestamp and the unsigned number with the same bits determine each other.
pub proof fn lemma_timestamp_bits(t: i64, u: u64)
    ensures
        ((t as u64) as i64) == t,
        ((u as i64) as u64) == u,
{
    assert(((t as u64) as i64) == t) by (bit_vector);
    assert(((u as i64) as u64) == u) by (bit_vector);
}

/// No two schedules have the same stored form.
pub proof fn lemma_record_determines_schedule(data: Seq<u8>, a: VestingSchedule, b: VestingSchedule)
    requires
        is_record_of(data, a),
        is_record_of(data, b),
    ensures
        a == b,
{
    lemma_auto_spec_u64_to_from_le_bytes();
    assert(a.schedule_id == b.schedule_id) by {
        assert(spec_u64_from_le_bytes(spec_u64_to_le_bytes(a.schedule_id)) == a.schedule_id);
        assert(spec_u64_from_le_bytes(spec_u64_to_le_bytes(b.schedule_id)) == b.schedule_id);
    }
    assert(a.total_amount == b.total_amount) by {
        assert(spec_u64_from_le_bytes(spec_u64_to_le_bytes(a.total_amount)) == a.total_amount);
        assert(spec_u64_from_le_bytes(spec_u64_to_le_bytes(b.total_amount)) == b.total_amount);
    }
    assert(a.amount_transferred == b.amount_transferred) by {
        assert(spec_u64_from_le_bytes(spec_u64_to_le_bytes(a.amount_transferred))
            == a.amount_transferred);
        assert(spec_u64_from_le_bytes(spec_u64_to_le_bytes(b.amount_transferred))
            == b.amount_transferred);
    }
    lemma_same_timestamp(a.cliff_timestamp, b.cliff_timestamp);
    lemma_same_timestamp(a.vesting_start_timestamp, b.vesting_start_timestamp);
    lemma_same_timestamp(a.vesting_end_timestamp, b.vesting_end_timestamp);
    assert(a.recipient.bytes =~= b.recipient.bytes);
    assert(a.recipient_token_account.bytes =~= b.recipient_token_account.bytes);
    assert(a.mint.bytes =~= b.mint.bytes);
    assert(a.token_vault.bytes =~= b.token_vault.bytes);
    assert(a.depositor.bytes =~= b.depositor.bytes);
}

/// Two timestamps with the same bytes are the same timestamp.
pub proof fn lemma_same_timestamp(a: i64, b: i64)
    ensures
        timestamp_bytes(a) == timestamp_bytes(b) ==> a == b,
{
    lemma_auto_spec_u64_to_from_le_bytes();
    lemma_timestamp_bits(a, 0);
    lemma_timestamp_bits(b, 0);
    assert(spec_u64_from_le_bytes(spec_u64_to_le_bytes(a as u64)) == a as u64);
    assert(spec_u64_from_le_bytes(spec_u64_to_le_bytes(b as u64)) == b as u64);
}

/// The unsigned number with the bits of a timestamp.
fn timestamp_to_bits(t: i64) -> (u: u64)
    ensures
        u == t as u64,
{
    #[verifier::truncate]
    (t as u64)
}

/// The timestamp with the bits of an unsigned number.
fn timestamp_from_bits(u: u64) -> (t: i64)
    ensures
        t == u as i64,
        t as u64 == u,
{
    proof {
        lemma_timestamp_bits(0, u);
    }
    #[verifier::truncate]
    (u as i64)
}

/// Reads the number stored at `at`.
fn read_u64(data: &[u8], at: usize) -> (x: u64)
    requires
        at + 8 <= data@.len(),
    ensures
        spec_u64_to_le_bytes(x) == field(data@, at as int, 8),
{
    proof {
        lemma_auto_spec_u64_to_from_le_bytes();
    }
    let end: usize = data.len();
    u64_from_le_bytes(slice_subrange(data, at, at + 8))
}

/// Reads the identity stored at `at`.
fn read_address(data: &[u8], at: usize) -> (a: Address)
    requires
        at + 32 <= data@.len(),
    ensures
        a.bytes@ == field(data@, at as int, 32),
{
    let mut bytes = [0u8; 32];
    let end: usize = data.len();
    let mut i: usize = 0;
    while i < 32
        invariant
            i <= 32,
            at + 32 <= data@.len(),
            data@.len() == end,
            forall|j: int| 0 <= j < i ==> bytes@[j] == data@[at + j],
        decreases 32 - i,
    {
        bytes[i] = data[at + i];
        i += 1;
    }
    assert(bytes@ =~= field(data@, at as int, 32));
    Address::new(bytes)
}

/// Appends `src` to `out`.
fn put_bytes(out: &mut Vec<u8>, src: &[u8])
    ensures
        final(out)@ == old(out)@ + src@,
{
    let mut i: usize = 0;
    while i < src.len()
        invariant
            i <= src@.len(),
            out@ == old(out)@ + src@.subrange(0, i as int),
        decreases src@.len() - i,
    {
        out.push(src[i]);
        assert(out@ =~= old(out)@ + src@.subrange(0, i + 1));
        i += 1;
    }
    assert(src@.subrange(0, src@.len() as int) =~= src@);
}

impl SourceCategory {
    /// The byte that stands for this tag in a stored record.
    pub fn to_tag(&self) -> (tag: u8)
        ensures
            tag == category_tag(*self),
    {
        match self {
            SourceCategory::Public => 0,
            SourceCategory::Ecosystem => 1,
            SourceCategory::Team => 2,
            SourceCategory::Liquidity => 3,
            SourceCategory::Strategic => 4,
            SourceCategory::Foundation => 5,
        }
    }

    /// The tag that `tag` stands for, if it stands for one.
    pub fn from_tag(tag: u8) -> (r: Option<SourceCategory>)
        ensures
            match r {
                Some(category) => category_tag(category) == tag,
                None => tag > 5,
            },
    {
        match tag {
            0 => Some(SourceCategory::Public),
            1 => Some(SourceCategory::Ecosystem),
            2 => Some(SourceCategory::Team),
            3 => Some(SourceCategory::Liquidity),
            4 => Some(SourceCategory::Strategic),
            5 => Some(SourceCategory::Foundation),
            _ => None,
        }
    }
}

impl VestingSchedule {
    /// The record of a storage that was never written: every field zero.
    pub open spec fn blank_record() -> VestingSchedule {
        VestingSchedule {
            schedule_id: 0,
            recipient: Address::null(),
            recipient_token_account: Address::null(),
            mint: Address::null(),
            token_vault: Address::null(),
            depositor: Address::null(),
            total_amount: 0,
            cliff_timestamp: 0,
            vesting_start_timestamp: 0,
            vesting_end_timestamp: 0,
            amount_transferred: 0,
            source_category: SourceCategory::Public,
            is_initialized: false,
            bump: 0,
        }
    }

    /// The record of a storage that was never written.
    pub fn blank() -> (schedule: VestingSchedule)
        ensures
            schedule == VestingSchedule::blank_record(),
    {
        VestingSchedule {
            schedule_id: 0,
            recipient: Address::unset(),
            recipient_token_account: Address::unset(),
            mint: Address::unset(),
            token_vault: Address::unset(),
            depositor: Address::unset(),
            total_amount: 0,
            cliff_timestamp: 0,
            vesting_start_timestamp: 0,
            vesting_end_timestamp: 0,
            amount_transferred: 0,
            source_category: SourceCategory::Public,
            is_initialized: false,
            bump: 0,
        }
    }

    /// The stored form of the record: 219 bytes in the fixed layout.
    pub fn encode(&self) -> (bytes: Vec<u8>)
        ensures
            bytes@.len() == 219,
            is_record_of(bytes@, *self),
    {
        proof {
            lemma_auto_spec_u64_to_from_le_bytes();
        }
        let mut out: Vec<u8> = Vec::new();
        put_bytes(&mut out, &VESTING_SCHEDULE_DISCRIMINATOR);
        put_bytes(&mut out, u64_to_le_bytes(self.schedule_id).as_slice());
        put_bytes(&mut out, &self.recipient.bytes);
        put_bytes(&mut out, &self.recipient_token_account.bytes);
        put_bytes(&mut out, &self.mint.bytes);
        put_bytes(&mut out, &self.token_vault.bytes);
        put_bytes(&mut out, &self.depositor.bytes);
        put_bytes(&mut out, u64_to_le_bytes(self.total_amount).as_slice());
        put_bytes(&mut out, u64_to_le_bytes(timestamp_to_bits(self.cliff_timestamp)).as_slice());
        put_bytes(
            &mut out,
            u64_to_le_bytes(timestamp_to_bits(self.vesting_start_timestamp)).as_slice(),
        );
        put_bytes(&mut out, u64_to_le_bytes(timestamp_to_bits(self.vesting_end_timestamp)).as_slice());
        put_bytes(&mut out, u64_to_le_bytes(self.amount_transferred).as_slice());
        out.push(self.source_category.to_tag());
        out.push(if self.is_initialized {
            1
        } else {
            0
        });
        out.push(self.bump);
        proof {
            let data = out@;
            assert(field(data, 0, 8) =~= VESTING_SCHEDULE_DISCRIMINATOR@);
            assert(field(data, 8, 8) =~= spec_u64_to_le_bytes(self.schedule_id));
            assert(field(data, 16, 32) =~= self.recipient.bytes@);
            assert(field(data, 48, 32) =~= self.recipient_token_account.bytes@);
            assert(field(data, 80, 32) =~= self.mint.bytes@);
            assert(field(data, 112, 32) =~= self.token_vault.bytes@);
            assert(field(data, 144, 32) =~= self.depositor.bytes@);
            assert(field(data, 176, 8) =~= spec_u64_to_le_bytes(self.total_amount));
            assert(field(data, 184, 8) =~= timestamp_bytes(self.cliff_timestamp));
            assert(field(data, 192, 8) =~= timestamp_bytes(self.vesting_start_timestamp));
            assert(field(data, 200, 8) =~= timestamp_bytes(self.vesting_end_timestamp));
            assert(field(data, 208, 8) =~= spec_u64_to_le_bytes(self.amount_transferred));
        }
        out
    }

    /// Reads a record from its stored form.
    ///
    /// Refused with `InvalidVestingScheduleData` where `data` is shorter than
    /// a record, does not begin with the tag of schedule records, or holds a
    /// byte that stands for no accounting tag or no flag. Bytes after the
    /// record are ignored.
    pub fn decode(data: &[u8]) -> (r: Result<VestingSchedule, VestingError>)
        ensures
            match r {
                Ok(schedule) => is_record_of(data@, schedule),
                Err(e) => e == VestingError::InvalidVestingScheduleData && forall|
                    schedule: VestingSchedule,
                | !is_record_of(data@, schedule),
            },
    {
        if data.len() < 219 {
            return Err(VestingError::InvalidVestingScheduleData);
        }
        let mut i: usize = 0;
        while i < 8
            invariant
                i <= 8,
                data@.len() >= 219,
                forall|j: int| 0 <= j < i ==> data@[j] == VESTING_SCHEDULE_DISCRIMINATOR@[j],
            decreases 8 - i,
        {
            if data[i] != VESTING_SCHEDULE_DISCRIMINATOR[i] {
                assert(field(data@, 0, 8)[i as int] != VESTING_SCHEDULE_DISCRIMINATOR@[i as int]);
                return Err(VestingError::InvalidVestingScheduleData);
            }
            i += 1;
        }
        assert(field(data@, 0, 8) =~= VESTING_SCHEDULE_DISCRIMINATOR@);
        let source_category = match SourceCategory::from_tag(data[216]) {
            Some(category) => category,
            None => {
                return Err(VestingError::InvalidVestingScheduleData);
            },
        };
        if data[217] > 1 {
            return Err(VestingError::InvalidVestingScheduleData);
        }
        let schedule = VestingSchedule {
            schedule_id: read_u64(data, 8),
            recipient: read_address(data, 16),
            recipient_token_account: read_address(data, 48),
            mint: read_address(data, 80),
            token_vault: read_address(data, 112),
            depositor: read_address(data, 144),
            total_amount: read_u64(data, 176),
            cliff_timestamp: timestamp_from_bits(read_u64(data, 184)),
            vesting_start_timestamp: timestamp_from_bits(read_u64(data, 192)),
            vesting_end_timestamp: timestamp_from_bits(read_u64(data, 200)),
            amount_transferred: read_u64(data, 208),
            source_category,
            is_initialized: data[217] == 1,
            bump: data[218],
        };
        Ok(schedule)
    }
}

} // verus!
