//! Participants of a decoded replay, and the soft decode-failure report.
//!
//! The replay-container format and its decoding belong to an external
//! collaborator; the driver performs that decoding at the process edge and
//! hands this library already-decoded plain values. The decoder can abort
//! on some crafted containers instead of returning an error, so its call
//! cannot carry a sound total-return contract here; the edge contains any
//! such abort and reports it, like every decode failure, as the fixed
//! diagnostic line below.

use vstd::prelude::*;
use crate::views_of;
use crate::CommandRecord;
use crate::RecordView;

verus! {

/// One participant of a decoded replay: a display name and the ordered
/// sequence of raw commands the participant issued.
pub struct ParticipantData {
    pub name: String,
    pub records: Vec<CommandRecord>,
}

/// The mathematical value of one participant: the name as characters and
/// the records as their plain values.
pub struct ParticipantView {
    pub name: Seq<char>,
    pub records: Seq<RecordView>,
}

impl View for ParticipantData {
    type V = ParticipantView;

    open spec fn view(&self) -> ParticipantView {
        ParticipantView { name: self.name@, records: views_of(self.records@) }
    }
}

/// The values of a sequence of participants.
pub open spec fn participant_views(ps: Seq<ParticipantData>) -> Seq<ParticipantView> {
    ps.map_values(|p: ParticipantData| p@)
}

/// The soft, reportable failure of decoding a replay container.
#[derive(Clone, Copy, Debug, PartialEq, Eq, Structural)]
pub enum DecodeError {
    /// The bytes do not parse as a replay container.
    ParseFailed,
}

/// The fixed diagnostic line reported when decoding fails.
pub fn parse_failure_line() -> (r: String)
    ensures
        r@ == "{\"error\":\"Parsing failed!\"}"@,
{
    "{\"error\":\"Parsing failed!\"}".to_owned()
}

} // verus!
