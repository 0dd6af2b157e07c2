//! The genesis block of a fund, as the service hands it out.

use vstd::prelude::*;

verus! {

/// The genesis block that belongs to one fund. A fund without a block has an empty one.
#[derive(Debug, PartialEq, Eq)]
pub struct Block0 {
    pub fund_id: i32,
    pub block0: Vec<u8>,
}

/// The status with which a block is handed out.
pub const STATUS_OK: u16 = 200;

/// The status that says that there is no block to hand out.
pub const STATUS_NO_CONTENT: u16 = 204;

/// What the service answers to a request for a genesis block.
#[derive(Debug, PartialEq, Eq)]
pub struct GenesisReply<'a> {
    pub status: u16,
    pub body: &'a Vec<u8>,
}

impl Block0 {
    /// Whether the block belongs to the fund `fund_id`.
    pub fn is_fund_id(&self, fund_id: i32) -> (b: bool)
        ensures
            b == (self.fund_id == fund_id),
    {
        self.fund_id == fund_id
    }
}

/// Whether some block belongs to the fund `fund_id`.
pub open spec fn has_block(blocks: Seq<Block0>, fund_id: i32) -> bool {
    exists|i: int| 0 <= i < blocks.len() && #[trigger] blocks[i].fund_id == fund_id
}

/// Whether `index` is where the first block of the fund `fund_id` stands.
pub open spec fn is_first_block(blocks: Seq<Block0>, fund_id: i32, index: int) -> bool {
    &&& 0 <= index < blocks.len()
    &&& blocks[index].fund_id == fund_id
    &&& forall|j: int| 0 <= j < index ==> #[trigger] blocks[j].fund_id != fund_id
}

/// The status that goes with the body `body`.
pub open spec fn status_of(body: Seq<u8>) -> u16 {
    if body.len() == 0 {
        STATUS_NO_CONTENT
    } else {
        STATUS_OK
    }
}

/// The media type of every answer.
pub fn content_type() -> (t: &'static str)
    ensures
        t@ == "application/octet-stream"@,
{
    "application/octet-stream"
}

/// Finds the first block of the fund `fund_id`.
pub fn find_block0(blocks: &Vec<Block0>, fund_id: i32) -> (found: Option<usize>)
    ensures
        found is Some <==> has_block(blocks@, fund_id),
        found matches Some(index) ==> is_first_block(blocks@, fund_id, index as int),
{
    let mut i: usize = 0;
    while i < blocks.len()
        invariant
            i <= blocks.len(),
            forall|j: int| 0 <= j < i ==> #[trigger] blocks@[j].fund_id != fund_id,
        decreases blocks.len() - i,
    {
        if blocks[i].is_fund_id(fund_id) {
            return Some(i);
        }
        i += 1;
    }
    None
}

/// Answers a request for the genesis block of the fund `fund_id`: the first block of that
/// fund, with the status that says whether it holds anything.
pub fn get_genesis<'a>(fund_id: i32, blocks: &'a Vec<Block0>) -> (reply: GenesisReply<'a>)
    requires
        has_block(blocks@, fund_id),
    ensures
        exists|index: int| #[trigger]
            is_first_block(blocks@, fund_id, index) && *reply.body == blocks@[index].block0,
        reply.status == status_of(reply.body@),
{
    let mut i: usize = 0;
    while !blocks[i].is_fund_id(fund_id)
        invariant
            i < blocks.len(),
            has_block(blocks@, fund_id),
            forall|j: int| 0 <= j < i ==> #[trigger] blocks@[j].fund_id != fund_id,
        decreases blocks.len() - i,
    {
        proof {
            let k = choose|k: int|
                0 <= k < blocks@.len() && #[trigger] blocks@[k].fund_id == fund_id;
            assert(k > i);
        }
        i += 1;
    }
    assert(is_first_block(blocks@, fund_id, i as int));
    let body = &blocks[i].block0;
    let status = if body.len() == 0 {
        STATUS_NO_CONTENT
    } else {
        STATUS_OK
    };
    GenesisReply { status, body }
}

} // verus!
