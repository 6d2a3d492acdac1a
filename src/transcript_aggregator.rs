//! Merges streaming transcript deltas into the best text known so far.
use vstd::prelude::*;
use vstd::string::StringExecFns;

verus! {

/// Partial text built from deltas, and the authoritative text once a
/// segment completes.
#[derive(Debug, Clone)]
pub struct TranscriptAggregator {
    partial_text: String,
    final_text: Option<String>,
    delta_count: u64,
}

impl TranscriptAggregator {
    /// The deltas so far, concatenated.
    pub closed spec fn partial(&self) -> Seq<char> {
        self.partial_text@
    }

    /// The completed text, if a segment has completed.
    pub closed spec fn completed(&self) -> Option<Seq<char>> {
        match self.final_text {
            Some(t) => Some(t@),
            None => None,
        }
    }

    /// Number of non-empty deltas taken in.
    pub closed spec fn count(&self) -> nat {
        self.delta_count as nat
    }

    /// The best text: the completed one if there is one, else the partial one.
    pub open spec fn current(&self) -> Seq<char> {
        match self.completed() {
            Some(t) => t,
            None => self.partial(),
        }
    }

    pub open spec fn is_empty_state(&self) -> bool {
        self.partial().len() == 0 && self.completed() is None && self.count() == 0
    }

    pub fn new() -> (r: TranscriptAggregator)
        ensures
            r.is_empty_state(),
    {
        TranscriptAggregator { partial_text: String::new(), final_text: None, delta_count: 0 }
    }

    /// Appends a non-empty delta to the partial text and counts it; an empty
    /// one changes nothing. Returns the partial text.
    pub fn process_delta(&mut self, delta: &str) -> (r: &str)
        requires
            old(self).count() < u64::MAX,
        ensures
            delta@.len() == 0 ==> *final(self) == *old(self),
            delta@.len() > 0 ==> final(self).partial() == old(self).partial() + delta@,
            delta@.len() > 0 ==> final(self).count() == old(self).count() + 1,
            final(self).completed() == old(self).completed(),
            r@ == final(self).partial(),
    {
        if !delta.is_empty() {
            self.partial_text.append(delta);
            self.delta_count = self.delta_count + 1;
        }
        self.partial_text.as_str()
    }

    /// Records the completed text, which from now on is the current text;
    /// the partial text and the count stay as they were.
    pub fn process_completed<'a>(&mut self, transcript: &'a str) -> (r: &'a str)
        ensures
            final(self).completed() == Some(transcript@),
            final(self).current() == transcript@,
            final(self).partial() == old(self).partial(),
            final(self).count() == old(self).count(),
            r@ == transcript@,
    {
        self.final_text = Some(transcript.to_owned());
        transcript
    }

    pub fn current_text(&self) -> (r: &str)
        ensures
            r@ == self.current(),
    {
        match &self.final_text {
            Some(t) => t.as_str(),
            None => self.partial_text.as_str(),
        }
    }

    pub fn has_text(&self) -> (r: bool)
        ensures
            r == (self.completed() is Some || self.partial().len() > 0),
    {
        self.final_text.is_some() || !self.partial_text.as_str().is_empty()
    }

    pub fn is_complete(&self) -> (r: bool)
        ensures
            r == self.completed() is Some,
    {
        self.final_text.is_some()
    }

    pub fn delta_count(&self) -> (r: u64)
        ensures
            r == self.count(),
    {
        self.delta_count
    }

    pub fn partial_text(&self) -> (r: &str)
        ensures
            r@ == self.partial(),
    {
        self.partial_text.as_str()
    }

    pub fn final_text(&self) -> (r: Option<&str>)
        ensures
            r is Some == self.completed() is Some,
            r is Some ==> r->0@ == self.completed()->0,
    {
        match &self.final_text {
            Some(t) => Some(t.as_str()),
            None => None,
        }
    }

    /// Back to the state of a new aggregator.
    pub fn reset(&mut self)
        ensures
            final(self).is_empty_state(),
    {
        self.partial_text = String::new();
        self.final_text = None;
        self.delta_count = 0;
    }
}

impl Default for TranscriptAggregator {
    fn default() -> (r: TranscriptAggregator)
        ensures
            r.is_empty_state(),
    {
        TranscriptAggregator::new()
    }
}

} // verus!
