//! The dispatcher: for each specifier, in input order, a resolution is
//! attempted; on success the record is appended to the output file (when one
//! is configured) before the flag glyph is fetched and the table shown, so a
//! later rendering failure never loses the persisted record. A failure at
//! any stage settles that specifier with a tagged outcome and the run goes
//! on with the next one.
//!
//! Every network call and file write is outside work: the dispatcher is a
//! state machine that, fed the outcome of each such step, decides the next
//! action and records the per-specifier outcomes in order.

use vstd::prelude::*;

verus! {

use crate::file::FileRenderer;
use crate::file::block_of;
use crate::flag::flag_url;
use crate::flag::flag_url_spec;
use crate::record::GeoRecord;
use crate::table::table_rows;
use crate::table::table_text;
use crate::table::terminal_output;
use vstd::string::StringExecFns;

/// What can go wrong while one specifier is handled.
#[derive(Debug, Clone, Copy, PartialEq, Eq)]
pub enum ErrorKind {
    /// The provider call failed or its response was rejected.
    Resolution,
    /// The flag glyph could not be fetched; the table is not shown.
    FlagFetch,
    /// The output file could not be written; the table is not shown.
    FileWrite,
}

/// How one specifier ended: rendered in full, or failed at a stage.
#[derive(Debug, Clone, Copy, PartialEq, Eq)]
pub enum Outcome {
    Rendered,
    Failed(ErrorKind),
}

/// Where the dispatcher stands with the specifier being processed.
pub enum Phase {
    /// Waiting for the resolution result.
    Resolving,
    /// The record's block was issued; waiting for the write result.
    Writing(GeoRecord),
    /// Waiting for the record's flag glyph.
    Fetching(GeoRecord),
}

/// The result of one piece of outside work, fed back to the dispatcher.
pub enum Event {
    Resolved(GeoRecord),
    ResolveFailed,
    Appended,
    AppendFailed,
    FlagFetched(String),
    FlagFailed,
}

/// What the caller is asked to do next.
pub enum Action {
    /// Append this block to the output file.
    AppendBlock(String),
    /// Fetch the flag glyph from this address.
    FetchFlag(String),
    /// Show this text on the terminal.
    Show(String),
    /// The current specifier is settled; move to the next one.
    Settled,
}

/// The event kinds each phase answers.
pub open spec fn accepts(ph: Phase, ev: Event) -> bool {
    match (ph, ev) {
        (Phase::Resolving, Event::Resolved(_)) => true,
        (Phase::Resolving, Event::ResolveFailed) => true,
        (Phase::Writing(_), Event::Appended) => true,
        (Phase::Writing(_), Event::AppendFailed) => true,
        (Phase::Fetching(_), Event::FlagFetched(_)) => true,
        (Phase::Fetching(_), Event::FlagFailed) => true,
        _ => false,
    }
}

pub struct Dispatcher {
    pub file: FileRenderer,
    pub phase: Phase,
    pub outcomes: Vec<Outcome>,
}

impl Dispatcher {
    /// An output path is configured for this run.
    pub open spec fn has_output(self) -> bool {
        self.file.path is Some
    }

    pub fn new(output_path: Option<String>) -> (d: Self)
        ensures
            d.file.path == output_path,
            d.file.content@ == Seq::<char>::empty(),
            d.phase is Resolving,
            d.outcomes@ == Seq::<Outcome>::empty(),
    {
        Dispatcher { file: FileRenderer::new(output_path), phase: Phase::Resolving, outcomes: Vec::new() }
    }

    /// Feed the result of the last piece of outside work; the dispatcher
    /// updates its record of outcomes and answers with the next action.
    ///
    /// An event a phase does not answer changes nothing and settles nothing.
    pub fn step(&mut self, ev: Event) -> (a: Action)
        ensures
            final(self).file.path == old(self).file.path,
            old(self).file.path is None ==> final(self).file == old(self).file,
            old(self).file.path is None ==> !(a matches Action::AppendBlock(_)),
            match (old(self).phase, ev) {
                (Phase::Resolving, Event::Resolved(rec)) => {
                    &&& final(self).outcomes@ == old(self).outcomes@
                    &&& if old(self).has_output() {
                        &&& final(self).phase == Phase::Writing(rec)
                        &&& final(self).file.content@ == old(self).file.content@ + block_of(rec)
                        &&& a matches Action::AppendBlock(b) && b@ == block_of(rec)
                    } else {
                        &&& final(self).phase == Phase::Fetching(rec)
                        &&& final(self).file == old(self).file
                        &&& a matches Action::FetchFlag(u) && u@ == flag_url_spec(rec.country@)
                    }
                },
                (Phase::Resolving, Event::ResolveFailed) => {
                    &&& final(self).outcomes@ == old(self).outcomes@.push(
                        Outcome::Failed(ErrorKind::Resolution),
                    )
                    &&& final(self).phase is Resolving
                    &&& final(self).file == old(self).file
                    &&& a is Settled
                },
                (Phase::Writing(rec), Event::Appended) => {
                    &&& final(self).outcomes@ == old(self).outcomes@
                    &&& final(self).phase == Phase::Fetching(rec)
                    &&& final(self).file == old(self).file
                    &&& a matches Action::FetchFlag(u) && u@ == flag_url_spec(rec.country@)
                },
                (Phase::Writing(_), Event::AppendFailed) => {
                    &&& final(self).outcomes@ == old(self).outcomes@.push(
                        Outcome::Failed(ErrorKind::FileWrite),
                    )
                    &&& final(self).phase is Resolving
                    &&& final(self).file == old(self).file
                    &&& a is Settled
                },
                (Phase::Fetching(rec), Event::FlagFetched(glyph)) => {
                    &&& final(self).outcomes@ == old(self).outcomes@.push(Outcome::Rendered)
                    &&& final(self).phase is Resolving
                    &&& final(self).file == old(self).file
                    &&& a matches Action::Show(t) && t@ == glyph@ + table_text(table_rows(rec))
                },
                (Phase::Fetching(_), Event::FlagFailed) => {
                    &&& final(self).outcomes@ == old(self).outcomes@.push(
                        Outcome::Failed(ErrorKind::FlagFetch),
                    )
                    &&& final(self).phase is Resolving
                    &&& final(self).file == old(self).file
                    &&& a is Settled
                },
                _ => {
                    &&& final(self).outcomes@ == old(self).outcomes@
                    &&& final(self).phase == old(self).phase
                    &&& final(self).file == old(self).file
                    &&& a is Settled
                },
            },
    {
        let mut ph = Phase::Resolving;
        core::mem::swap(&mut ph, &mut self.phase);
        match (ph, ev) {
            (Phase::Resolving, Event::Resolved(rec)) => {
                if self.file.path.is_some() {
                    let block = self.file.append(&rec);
                    self.phase = Phase::Writing(rec);
                    Action::AppendBlock(block)
                } else {
                    let url = flag_url(rec.country.as_str());
                    self.phase = Phase::Fetching(rec);
                    Action::FetchFlag(url)
                }
            },
            (Phase::Resolving, Event::ResolveFailed) => {
                self.outcomes.push(Outcome::Failed(ErrorKind::Resolution));
                Action::Settled
            },
            (Phase::Writing(rec), Event::Appended) => {
                let url = flag_url(rec.country.as_str());
                self.phase = Phase::Fetching(rec);
                Action::FetchFlag(url)
            },
            (Phase::Writing(_), Event::AppendFailed) => {
                self.outcomes.push(Outcome::Failed(ErrorKind::FileWrite));
                Action::Settled
            },
            (Phase::Fetching(rec), Event::FlagFetched(glyph)) => {
                let text = terminal_output(glyph.as_str(), &rec);
                self.outcomes.push(Outcome::Rendered);
                Action::Show(text)
            },
            (Phase::Fetching(_), Event::FlagFailed) => {
                self.outcomes.push(Outcome::Failed(ErrorKind::FlagFetch));
                Action::Settled
            },
            (other, _) => {
                self.phase = other;
                Action::Settled
            },
        }
    }

    /// The one confirmation a run ends with: where output was written, when
    /// an output path was configured; nothing otherwise.
    pub fn confirmation(&self) -> (msg: Option<String>)
        ensures
            match msg {
                Some(m) => self.file.path matches Some(p) && m@ == confirmation_text(p@),
                None => self.file.path is None,
            },
    {
        match &self.file.path {
            Some(p) => {
                let mut m = String::from_str("\nOutput written to file: ");
                m.append(p.as_str());
                Some(m)
            },
            None => None,
        }
    }
}

/// The confirmation emitted once after a run with a configured output path.
pub open spec fn confirmation_text(path: Seq<char>) -> Seq<char> {
    "\nOutput written to file: "@ + path
}

} // verus!
