//! Inspection of decoded game-replay command streams: classification of
//! per-command byte codes into named categories, order-preserving filtering
//! of a participant's command sequence by a chosen set of categories, and
//! rendering of each retained command as a fixed-column, positionally
//! colorized diagnostic line.

pub mod category;
pub mod colors;
pub mod filter;
pub mod participant;
pub mod render;
pub mod text;

use vstd::prelude::*;

verus! {

/// One timestamped, typed, byte-payload-bearing action issued by a
/// participant of a decoded replay.
pub struct CommandRecord {
    pub tick: u32,
    pub action_code: u8,
    pub payload: Vec<u8>,
}

/// The mathematical value of a command record: its tick, its one-byte
/// action code, and its payload as a sequence of bytes.
pub struct RecordView {
    pub tick: u32,
    pub action_code: u8,
    pub payload: Seq<u8>,
}

impl View for CommandRecord {
    type V = RecordView;

    open spec fn view(&self) -> RecordView {
        RecordView { tick: self.tick, action_code: self.action_code, payload: self.payload@ }
    }
}

/// The values of a sequence of command records.
pub open spec fn views_of(records: Seq<CommandRecord>) -> Seq<RecordView> {
    records.map_values(|r: CommandRecord| r@)
}

} // verus!
