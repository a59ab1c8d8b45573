use vstd::prelude::*;
use vstd::bytes::{spec_u64_from_le_bytes, u64_from_le_bytes};
use crate::addr::{Address, copy_range};

verus! {

/// Byte length of a mint record in the ledger program's format.
pub const MINT_RECORD_LEN: usize = 82;

/// Byte length of a holding-account record in the ledger program's format.
pub const HOLDING_RECORD_LEN: usize = 165;

/// Decimal precision every mint is created with; it is a configured
/// constant, not caller-supplied.
pub const MINT_DECIMALS: u8 = 9;

/// What the resolver reads out of a mint record: the recorded mint
/// authority (absent once minting is permanently disabled), the supply
/// counter the ledger maintains, the decimal precision, and whether the
/// record has been initialized.
#[derive(Debug)]
pub struct MintRecord {
    pub authority: Option<Address>,
    pub supply: u64,
    pub decimals: u8,
    pub initialized: bool,
}

/// Mathematical image of a `MintRecord`.
pub struct MintRecordView {
    pub authority: Option<Seq<u8>>,
    pub supply: u64,
    pub decimals: u8,
    pub initialized: bool,
}

impl View for MintRecord {
    type V = MintRecordView;

    open spec fn view(&self) -> MintRecordView {
        MintRecordView {
            authority: match self.authority {
                Option::Some(a) => Option::Some(a@),
                Option::None => Option::None,
            },
            supply: self.supply,
            decimals: self.decimals,
            initialized: self.initialized,
        }
    }
}

/// What the resolver reads out of a holding-account record: the mint it
/// belongs to, the holder that owns it, its balance, and its state byte
/// (0 = uninitialized, 1 = initialized, 2 = frozen).
#[derive(Debug)]
pub struct HoldingRecord {
    pub mint: Address,
    pub holder: Address,
    pub balance: u64,
    pub state: u8,
}

/// Mathematical image of a `HoldingRecord`.
pub struct HoldingRecordView {
    pub mint: Seq<u8>,
    pub holder: Seq<u8>,
    pub balance: u64,
    pub state: u8,
}

impl View for HoldingRecord {
    type V = HoldingRecordView;

    open spec fn view(&self) -> HoldingRecordView {
        HoldingRecordView {
            mint: self.mint@,
            holder: self.holder@,
            balance: self.balance,
            state: self.state,
        }
    }
}

/// A four-byte optional-field tag in the ledger's record format: one tag
/// byte that must be 0 (absent) or 1 (present), then three zero bytes.
pub open spec fn coption_tag_ok(d: Seq<u8>, off: int) -> bool {
    &&& (d[off] == 0 || d[off] == 1)
    &&& d[off + 1] == 0
    &&& d[off + 2] == 0
    &&& d[off + 3] == 0
}

/// The mint record layout: an optional authority at offset 0 (tag) and 4
/// (key), the supply counter at 36, the precision at 44, the
/// initialization byte at 45, and an optional freeze authority at 46,
/// which this program validates but does not read.
pub open spec fn parse_mint_record(d: Seq<u8>) -> Option<MintRecordView> {
    if d.len() != MINT_RECORD_LEN {
        Option::None
    } else if !coption_tag_ok(d, 0) {
        Option::None
    } else if !(d[45] == 0 || d[45] == 1) {
        Option::None
    } else if !coption_tag_ok(d, 46) {
        Option::None
    } else {
        Option::Some(
            MintRecordView {
                authority: if d[0] == 1 {
                    Option::Some(d.subrange(4, 36))
                } else {
                    Option::None
                },
                supply: spec_u64_from_le_bytes(d.subrange(36, 44)),
                decimals: d[44],
                initialized: d[45] == 1,
            },
        )
    }
}

/// The holding-account record layout: the mint address at offset 0, the
/// holder address at 32, the balance at 64, an optional delegate at 72,
/// the state byte at 108, an optional native marker at 109, and an
/// optional close authority at 129; the optional fields are validated but
/// not read.
pub open spec fn parse_holding_record(d: Seq<u8>) -> Option<HoldingRecordView> {
    if d.len() != HOLDING_RECORD_LEN {
        Option::None
    } else if !coption_tag_ok(d, 72) {
        Option::None
    } else if !(d[108] == 0 || d[108] == 1 || d[108] == 2) {
        Option::None
    } else if !coption_tag_ok(d, 109) {
        Option::None
    } else if !coption_tag_ok(d, 129) {
        Option::None
    } else {
        Option::Some(
            HoldingRecordView {
                mint: d.subrange(0, 32),
                holder: d.subrange(32, 64),
                balance: spec_u64_from_le_bytes(d.subrange(64, 72)),
                state: d[108],
            },
        )
    }
}

/// Check a four-byte optional-field tag.
fn tag_ok(data: &Vec<u8>, off: usize) -> (r: bool)
    requires
        off + 4 <= data@.len(),
    ensures
        r == coption_tag_ok(data@, off as int),
{
    // the length fits in usize, so the offsets below cannot overflow
    let total: usize = data.len();
    proof {
        assert(off + 4 <= total);
    }
    (data[off] == 0 || data[off] == 1) && data[off + 1] == 0 && data[off + 2] == 0 && data[off + 3]
        == 0
}

/// Read a 32-byte address out of a record.
fn read_address(data: &Vec<u8>, off: usize) -> (r: Address)
    requires
        off + 32 <= data@.len(),
    ensures
        r@ == data@.subrange(off as int, off as int + 32),
{
    Address { bytes: copy_range(data, off, 32) }
}

/// Deserialize a mint record, in the ledger program's format; `None` on a
/// malformed record.
pub fn parse_mint(data: &Vec<u8>) -> (r: Option<MintRecord>)
    ensures
        match r {
            Option::Some(m) => parse_mint_record(data@) == Option::Some(m@),
            Option::None => parse_mint_record(data@) is None,
        },
{
    if data.len() != MINT_RECORD_LEN {
        return Option::None;
    }
    if !tag_ok(data, 0) {
        return Option::None;
    }
    let init_byte = data[45];
    if !(init_byte == 0 || init_byte == 1) {
        return Option::None;
    }
    if !tag_ok(data, 46) {
        return Option::None;
    }
    let authority = if data[0] == 1 {
        Option::Some(read_address(data, 4))
    } else {
        Option::None
    };
    let supply = u64_from_le_bytes(&data[36..44]);
    Option::Some(
        MintRecord { authority, supply, decimals: data[44], initialized: init_byte == 1 },
    )
}

/// Deserialize a holding-account record, in the ledger program's format;
/// `None` on a malformed record.
pub fn parse_holding(data: &Vec<u8>) -> (r: Option<HoldingRecord>)
    ensures
        match r {
            Option::Some(h) => parse_holding_record(data@) == Option::Some(h@),
            Option::None => parse_holding_record(data@) is None,
        },
{
    if data.len() != HOLDING_RECORD_LEN {
        return Option::None;
    }
    if !tag_ok(data, 72) {
        return Option::None;
    }
    let state = data[108];
    if !(state == 0 || state == 1 || state == 2) {
        return Option::None;
    }
    if !tag_ok(data, 109) {
        return Option::None;
    }
    if !tag_ok(data, 129) {
        return Option::None;
    }
    let mint = read_address(data, 0);
    let holder = read_address(data, 32);
    let balance = u64_from_le_bytes(&data[64..72]);
    Option::Some(HoldingRecord { mint, holder, balance, state })
}

} // verus!
