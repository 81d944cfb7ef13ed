//! The summarizer: one compact transcript from the ordered records.
//!
//! The transcript is a fixed instruction followed by one line per record —
//! its timestamp to one decimal place and its description.  An empty batch
//! is answered directly, without consulting the external capability; a
//! failure of the external call is the caller's to absorb, never fatal to
//! the per-frame records already computed.

use vstd::prelude::*;
use crate::records::FrameRecord;
use crate::text::{spec_ts_text, ts_text};

verus! {

/// The instruction that opens the summary prompt.
pub open spec fn summary_header() -> Seq<char> {
    "Summarize the video in detail description, should be 3-5 sentences.\n\nFrames:\n. Based on all the frmaes, try to keep a story line and explain what happened in the video. Describe the story not the specific details."@
}

/// One transcript line: the record's timestamp and its description.
pub open spec fn line_of(r: FrameRecord) -> Seq<char> {
    "- ["@ + spec_ts_text(r.timestamp_ms as nat) + "s] "@ + r.description@ + "\n"@
}

/// The first `n` transcript lines, in record order.
pub open spec fn lines_upto(rs: Seq<FrameRecord>, n: int) -> Seq<char>
    decreases n,
{
    if n <= 0 {
        Seq::empty()
    } else {
        lines_upto(rs, n - 1) + line_of(rs[n - 1])
    }
}

/// The whole transcript: the instruction, then one line per record.
pub open spec fn transcript_of(rs: Seq<FrameRecord>) -> Seq<char> {
    summary_header() + lines_upto(rs, rs.len() as int)
}

/// What to do about a summary: answer directly, or ask the external
/// text-generation capability with the given prompt.
pub enum SummaryPlan {
    /// Nothing to ask; this is the whole summary.
    Done(String),
    /// Ask the capability to summarize this transcript.
    Ask(String),
}

/// Builds the summary transcript of a batch of records.
pub fn build_transcript(records: &Vec<FrameRecord>) -> (r: String)
    ensures
        r@ == transcript_of(records@),
{
    let mut s = String::from_str("Summarize the video in detail description, should be 3-5 sentences.\n\nFrames:\n. Based on all the frmaes, try to keep a story line and explain what happened in the video. Describe the story not the specific details.");
    let mut i: usize = 0;
    while i < records.len()
        invariant
            i <= records@.len(),
            s@ == summary_header() + lines_upto(records@, i as int),
        decreases records@.len() - i,
    {
        s.append("- [");
        let t = ts_text(records[i].timestamp_ms);
        s.append(t.as_str());
        s.append("s] ");
        s.append(records[i].description.as_str());
        s.append("\n");
        proof {
            assert(s@ =~= summary_header() + lines_upto(records@, i + 1));
        }
        i = i + 1;
    }
    s
}

/// Decides the summary step: an empty batch yields its fixed answer at
/// once; otherwise the transcript is to be sent out.
pub fn plan_summary(records: &Vec<FrameRecord>) -> (r: SummaryPlan)
    ensures
        records@.len() == 0 ==> (r matches SummaryPlan::Done(s)
            && s@ == "No frames processed; nothing to summarize."@),
        records@.len() > 0 ==> (r matches SummaryPlan::Ask(p)
            && p@ == transcript_of(records@)),
{
    if records.len() == 0 {
        SummaryPlan::Done(String::from_str("No frames processed; nothing to summarize."))
    } else {
        SummaryPlan::Ask(build_transcript(records))
    }
}

} // verus!
