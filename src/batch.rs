//! Batch mode: the reference file's grammar and the driver that voids each
//! reference in turn.

use vstd::prelude::*;
use crate::auth::base64_of;
use crate::endpoint::spec_fetch_base;
use crate::outcome::{VoidOutcome, spec_line};
use crate::params::{Params, return_error};
use crate::workflow::{
    FetchStep, Reply, Request, Stage, VoidSession, spec_after_fetch, spec_after_void,
};

verus! {

/// Whitespace stripped from both ends of a line: the Unicode White_Space
/// characters.
pub open spec fn is_space(c: char) -> bool {
    let u = c as u32;
    (0x9 <= u <= 0xd) || u == 0x20 || u == 0x85 || u == 0xa0 || u == 0x1680 || (0x2000 <= u
        <= 0x200a) || u == 0x2028 || u == 0x2029 || u == 0x202f || u == 0x205f || u == 0x3000
}

pub open spec fn trim_start(s: Seq<char>) -> Seq<char>
    decreases s.len(),
{
    if s.len() > 0 && is_space(s[0]) {
        trim_start(s.drop_first())
    } else {
        s
    }
}

pub open spec fn trim_end(s: Seq<char>) -> Seq<char>
    decreases s.len(),
{
    if s.len() > 0 && is_space(s.last()) {
        trim_end(s.drop_last())
    } else {
        s
    }
}

/// `s` without its leading and trailing whitespace.
pub open spec fn spec_trim(s: Seq<char>) -> Seq<char> {
    trim_end(trim_start(s))
}

/// The LF-delimited lines of `s`; the part after the last LF is a line too,
/// empty where `s` ends in LF.
pub open spec fn split_lines(s: Seq<char>) -> Seq<Seq<char>>
    decreases s.len(),
{
    if s.len() == 0 {
        seq![Seq::empty()]
    } else {
        let prev = split_lines(s.drop_last());
        if s.last() == '\n' {
            prev.push(Seq::empty())
        } else {
            prev.update(prev.len() - 1, prev.last().push(s.last()))
        }
    }
}

/// The trimmed lines that are not empty, in order.
pub open spec fn kept_lines(lines: Seq<Seq<char>>) -> Seq<Seq<char>>
    decreases lines.len(),
{
    if lines.len() == 0 {
        Seq::empty()
    } else {
        let prev = kept_lines(lines.drop_last());
        let t = spec_trim(lines.last());
        if t.len() > 0 {
            prev.push(t)
        } else {
            prev
        }
    }
}

/// The references that a file's text lists.
pub open spec fn spec_references(text: Seq<char>) -> Seq<Seq<char>> {
    kept_lines(split_lines(text))
}

/// The views of a vector of strings.
pub open spec fn views(v: Seq<String>) -> Seq<Seq<char>> {
    v.map_values(|s: String| s@)
}

fn is_space_char(c: char) -> (r: bool)
    ensures
        r == is_space(c),
{
    let u = c as u32;
    (0x9 <= u && u <= 0xd) || u == 0x20 || u == 0x85 || u == 0xa0 || u == 0x1680 || (0x2000 <= u
        && u <= 0x200a) || u == 0x2028 || u == 0x2029 || u == 0x202f || u == 0x205f || u == 0x3000
}

/// `s` without its leading and trailing whitespace.
pub fn trim(s: &str) -> (r: String)
    ensures
        r@ == spec_trim(s@),
{
    let n = s.unicode_len();
    let mut a: usize = 0;
    assert(s@.subrange(0, n as int) =~= s@);
    while a < n && is_space_char(s.get_char(a))
        invariant
            n == s@.len(),
            a <= n,
            trim_start(s@) == trim_start(s@.subrange(a as int, n as int)),
        decreases n - a,
    {
        assert(s@.subrange(a as int, n as int).drop_first() =~= s@.subrange(a + 1, n as int));
        a = a + 1;
    }
    assert(trim_start(s@) == s@.subrange(a as int, n as int));
    let mut b: usize = n;
    while b > a && is_space_char(s.get_char(b - 1))
        invariant
            n == s@.len(),
            a <= b <= n,
            trim_start(s@) == s@.subrange(a as int, n as int),
            spec_trim(s@) == trim_end(s@.subrange(a as int, b as int)),
        decreases b - a,
    {
        assert(s@.subrange(a as int, b as int).drop_last() =~= s@.subrange(a as int, b - 1));
        b = b - 1;
    }
    String::from_str(s.substring_char(a, b))
}

/// Appends the trimmed `line` to `refs` unless it is empty.
fn keep_line(refs: &mut Vec<String>, line: &str)
    ensures
        views(final(refs)@) == (if spec_trim(line@).len() > 0 {
            views(old(refs)@).push(spec_trim(line@))
        } else {
            views(old(refs)@)
        }),
{
    let t = trim(line);
    if t.as_str().unicode_len() > 0 {
        let ghost before = refs@;
        refs.push(t);
        assert(views(refs@) =~= views(before).push(spec_trim(line@)));
    }
}

/// The references listed in `text`: one per LF-delimited line, stripped of
/// surrounding whitespace, with empty lines skipped, in file order.
pub fn parse_references(text: &str) -> (r: Vec<String>)
    ensures
        views(r@) == spec_references(text@),
{
    let n = text.unicode_len();
    let mut refs: Vec<String> = Vec::new();
    let mut start: usize = 0;
    let mut i: usize = 0;
    proof {
        assert(text@.subrange(0, 0) =~= Seq::<char>::empty());
        assert(views(refs@) =~= Seq::<Seq<char>>::empty());
    }
    while i < n
        invariant
            n == text@.len(),
            start <= i <= n,
            split_lines(text@.subrange(0, i as int)).len() >= 1,
            split_lines(text@.subrange(0, i as int)).last() == text@.subrange(
                start as int,
                i as int,
            ),
            views(refs@) == kept_lines(split_lines(text@.subrange(0, i as int)).drop_last()),
        decreases n - i,
    {
        let c = text.get_char(i);
        let ghost prev = split_lines(text@.subrange(0, i as int));
        let ghost cur = text@.subrange(0, i + 1);
        proof {
            assert(cur.drop_last() =~= text@.subrange(0, i as int));
            assert(cur.last() == c);
        }
        if c == '\n' {
            keep_line(&mut refs, text.substring_char(start, i));
            proof {
                let next = split_lines(cur);
                assert(next == prev.push(Seq::empty()));
                assert(next.drop_last() =~= prev);
                assert(prev.drop_last().push(prev.last()) =~= prev);
                assert(text@.subrange(i + 1, i + 1) =~= Seq::<char>::empty());
            }
            start = i + 1;
        } else {
            proof {
                let next = split_lines(cur);
                assert(next.drop_last() =~= prev.drop_last());
                assert(next.last() =~= text@.subrange(start as int, i + 1));
            }
        }
        i = i + 1;
    }
    keep_line(&mut refs, text.substring_char(start, n));
    proof {
        let all = split_lines(text@.subrange(0, n as int));
        assert(text@.subrange(0, n as int) =~= text@);
        assert(all.drop_last().push(all.last()) =~= all);
    }
    refs
}

/// The message of a batch whose file could not be read or lists nothing.
pub open spec fn input_error_message() -> Seq<char> {
    "Error opening file: "@ + "please check file and path"@
}

/// The references of a batch, from the file's text, or `None` where the file
/// could not be read. Fails where there is no text or it lists no reference.
pub fn batch_references(contents: Option<String>) -> (r: Result<Vec<String>, String>)
    ensures
        match contents {
            Some(text) => spec_references(text@).len() > 0 ==> (r matches Ok(v) && views(v@)
                == spec_references(text@)),
            None => true,
        },
        r is Err <==> (contents is None || spec_references(contents->Some_0@).len() == 0),
        r is Err ==> r->Err_0@ == input_error_message(),
{
    let refs = match contents {
        Some(text) => parse_references(text.as_str()),
        None => Vec::new(),
    };
    if refs.len() == 0 {
        let detail = String::from_str("please check file and path");
        return_error("Error opening file: ", &detail)
    } else {
        Ok(refs)
    }
}

/// Voids a list of references one after the other. The caller sends each
/// request that `next_request` names and hands the reply to `receive`.
pub struct BatchRun {
    pub params: Params,
    pub references: Vec<String>,
    /// How many references are finished.
    pub index: usize,
    /// The session of the reference at `index`, while one is left.
    pub session: Option<VoidSession>,
    /// Requests sent so far.
    pub requests: usize,
    /// The outcome of each finished reference, in order.
    pub outcomes: Vec<VoidOutcome>,
    /// The line reported for each finished reference, in order.
    pub lines: Vec<String>,
}

impl BatchRun {
    pub open spec fn wf(&self) -> bool {
        &&& self.references@.len() <= usize::MAX / 2
        &&& self.index <= self.references@.len()
        &&& self.outcomes@.len() == self.index
        &&& self.lines@.len() == self.index
        &&& forall|k: int|
            0 <= k < self.index ==> #[trigger] self.outcomes@[k]@.reference()
                == self.references@[k]@ && self.lines@[k]@ == spec_line(self.outcomes@[k]@)
        &&& match self.session {
            Some(s) => {
                &&& self.index < self.references@.len()
                &&& s.wf()
                &&& !s.is_finished()
                &&& s.reference@ == self.references@[self.index as int]@
                &&& s.merchant_id@ == self.params.username@
                &&& s.authorization@ == "Basic "@ + base64_of(
                    self.params.username@ + ":"@ + self.params.token@,
                )
                &&& self.requests <= 2 * self.index + s.requests
            },
            None => self.index == self.references@.len() && self.requests <= 2 * self.index,
        }
    }

    /// Every reference is finished.
    pub open spec fn is_done(&self) -> bool {
        self.session is None
    }

    /// Replies still to come, at most.
    pub open spec fn remaining(&self) -> nat {
        match self.session {
            Some(s) => (2 * (self.references@.len() - self.index - 1) + s.pending()) as nat,
            None => 0,
        }
    }

    /// A run over `references`, none of them started.
    pub fn new(params: Params, references: Vec<String>) -> (r: Self)
        requires
            references@.len() <= usize::MAX / 2,
        ensures
            r.wf(),
            r.index == 0,
            r.requests == 0,
            r.params == params,
            r.references == references,
            r.is_done() <==> references@.len() == 0,
            r.session matches Some(s) ==> s.stage is Fetching,
    {
        let session = if references.len() > 0 {
            Some(VoidSession::new(&params, &references[0]))
        } else {
            None
        };
        BatchRun {
            params,
            references,
            index: 0,
            session,
            requests: 0,
            outcomes: Vec::new(),
            lines: Vec::new(),
        }
    }

    /// The request that is due, for the reference at `index`; none once every
    /// reference is finished.
    pub fn next_request(&self) -> (r: Option<Request>)
        requires
            self.wf(),
        ensures
            match self.session {
                Some(s) => r matches Some(q) && s.is_due(q) && s.reference@
                    == self.references@[self.index as int]@,
                None => r is None,
            },
    {
        match &self.session {
            Some(s) => s.request(),
            None => None,
        }
    }

    /// Takes the reply to the request that was due. Returns the reported line
    /// where this finishes the current reference.
    pub fn receive(&mut self, reply: Reply) -> (r: Option<String>)
        requires
            old(self).wf(),
            !old(self).is_done(),
        ensures
            final(self).wf(),
            final(self).requests == old(self).requests + 1,
            final(self).remaining() < old(self).remaining(),
            final(self).params == old(self).params,
            final(self).references == old(self).references,
            old(self).outcomes@.is_prefix_of(final(self).outcomes@),
            old(self).lines@.is_prefix_of(final(self).lines@),
            match r {
                Some(line) => final(self).index == old(self).index + 1 && line
                    == final(self).lines@.last() && (final(self).session matches Some(s)
                    ==> s.stage is Fetching),
                None => final(self).index == old(self).index,
            },
            old(self).session->Some_0.stage is Voiding ==> (r is Some
                && final(self).outcomes@.last()@ == spec_after_void(
                old(self).references@[old(self).index as int]@,
                reply,
            )),
            old(self).session->Some_0.stage is Fetching ==> match spec_after_fetch(
                old(self).references@[old(self).index as int]@,
                reply,
            ) {
                FetchStep::Void(id) => r is None && (final(self).session matches Some(s)
                    && s.stage matches Stage::Voiding { id: i } && i@ == id),
                FetchStep::Finish(o) => r is Some && final(self).outcomes@.last()@ == o,
            },
    {
        let mut session = match self.session.take() {
            Some(s) => s,
            // excluded by the precondition
            None => {
                return None;
            },
        };
        session.receive(reply);
        self.requests = self.requests + 1;
        if !session.finished() {
            self.session = Some(session);
            return None;
        }
        let ghost finished = session;
        let outcome = session.into_outcome();
        assert(outcome@.reference() == finished.reference@);
        let line = outcome.line();
        let ghost old_outcomes = self.outcomes@;
        let ghost old_lines = self.lines@;
        self.outcomes.push(outcome);
        self.lines.push(line.clone());
        self.index = self.index + 1;
        if self.index < self.references.len() {
            self.session = Some(VoidSession::new(&self.params, &self.references[self.index]));
        }
        proof {
            assert(old_outcomes.is_prefix_of(self.outcomes@));
            assert(old_lines.is_prefix_of(self.lines@));
            assert forall|k: int| 0 <= k < self.index implies #[trigger] self.outcomes@[k]@.reference()
                == self.references@[k]@ && self.lines@[k]@ == spec_line(self.outcomes@[k]@) by {
                if k < self.index - 1 {
                    assert(self.outcomes@[k] == old_outcomes[k]);
                    assert(self.lines@[k] == old_lines[k]);
                    assert(old_outcomes[k]@.reference() == self.references@[k]@);
                } else {
                    assert(self.outcomes@[k] == outcome);
                    assert(self.lines@[k] == line);
                    assert(finished.reference@ == self.references@[k]@);
                    assert(self.lines@[k]@ == spec_line(self.outcomes@[k]@));
                }
            }
        }
        Some(line)
    }
}

/// A finished batch of N references sent at most 2N requests, one fetch and
/// at most one void for each, and reported exactly N lines, one for each
/// reference in input order.
pub proof fn lemma_batch_bounds(run: BatchRun)
    requires
        run.wf(),
        run.is_done(),
    ensures
        run.requests <= 2 * run.references@.len(),
        run.lines@.len() == run.references@.len(),
        forall|k: int|
            0 <= k < run.references@.len() ==> #[trigger] run.lines@[k]@ == spec_line(
                run.outcomes@[k]@,
            ) && run.outcomes@[k]@.reference() == run.references@[k]@,
{
    assert forall|k: int| 0 <= k < run.references@.len() implies #[trigger] run.lines@[k]@
        == spec_line(run.outcomes@[k]@) && run.outcomes@[k]@.reference()
        == run.references@[k]@ by {
        assert(run.outcomes@[k]@.reference() == run.references@[k]@);
    }
}

/// A batch runs in file order: the references before `index` are finished
/// and reported in order, and the request that is due belongs to the reference
/// at `index`, on the gateway of the run's merchant; a reference that has not
/// started is fetched first.
pub proof fn lemma_batch_order(run: BatchRun, q: Request)
    requires
        run.wf(),
        !run.is_done(),
        run.session->Some_0.is_due(q),
    ensures
        run.index < run.references@.len(),
        run.session->Some_0.reference@ == run.references@[run.index as int]@,
        run.session->Some_0.stage is Fetching ==> q.method is Get && q.url@ == spec_fetch_base(
            run.params.username@,
        ) + run.references@[run.index as int]@,
        forall|k: int|
            0 <= k < run.index ==> #[trigger] run.outcomes@[k]@.reference() == run.references@[k]@,
{
}

} // verus!
