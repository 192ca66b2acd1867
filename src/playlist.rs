use crate::command::{quoted, CommandArgs};
use crate::error::{Error, Result};
use std::rc::Rc;
use vstd::prelude::*;
use vstd::utf8::encode_utf8;

verus! {

/// How a file is inserted into the playlist.
#[derive(Debug, Clone, Copy, PartialEq, Eq, Structural)]
pub enum FileState {
    /// Replace the current track.
    Replace,
    /// Append to the current playlist.
    Append,
    /// If the current playlist is empty: play, otherwise append to the playlist.
    AppendPlay,
}

/// The word by which the native `loadfile` command names each insertion mode.
pub open spec fn file_state_word(s: FileState) -> Seq<char> {
    match s {
        FileState::Replace => "replace"@,
        FileState::Append => "append"@,
        FileState::AppendPlay => "append-play"@,
    }
}

impl FileState {
    /// The word that names this insertion mode on the command line.
    pub fn val(&self) -> (r: &'static str)
        ensures
            r@ == file_state_word(*self),
    {
        match *self {
            FileState::Replace => "replace",
            FileState::Append => "append",
            FileState::AppendPlay => "append-play",
        }
    }
}

/// The command that loads one file: `loadfile "<path>" <mode> <options>`, the
/// options empty when none are given.
pub fn loadfile_command(path: &str, state: FileState, options: Option<&str>) -> (r: CommandArgs)
    ensures
        r@ == seq![
            encode_utf8("loadfile"@),
            quoted(encode_utf8(path@)),
            encode_utf8(file_state_word(state)),
            encode_utf8(
                match options {
                    Some(o) => o@,
                    None => ""@,
                },
            ),
        ],
{
    let mut cmd = CommandArgs::new("loadfile");
    cmd.quoted(path);
    cmd.arg(state.val());
    match options {
        Some(o) => cmd.arg(o),
        None => cmd.arg(""),
    }
    cmd
}

/// Where a batch load stands, as mathematical values: `next` entries were
/// accepted, of `len`; `outcome` is set once the batch is over.
pub ghost struct LoadState {
    pub next: nat,
    pub len: nat,
    pub outcome: Option<Result<()>>,
}

/// The batch load after the entry that was sent last came back with `ret`.
pub open spec fn load_step(s: LoadState, ret: Result<()>) -> LoadState {
    match ret {
        Ok(()) => LoadState {
            next: s.next + 1,
            outcome: if s.next + 1 >= s.len {
                Some(Ok(()))
            } else {
                None
            },
            ..s
        },
        Err(e) => LoadState {
            outcome: Some(Err(Error::Loadfiles { index: s.next as usize, error: Rc::new(e) })),
            ..s
        },
    }
}

/// The batch load after the answers `rets`, taken one per entry sent while the
/// batch is not over; the count is how many entries were sent.
pub open spec fn load_run(s: LoadState, rets: Seq<Result<()>>) -> (LoadState, nat)
    decreases rets.len(),
{
    if s.outcome is Some || rets.len() == 0 {
        (s, 0)
    } else {
        let (end, n) = load_run(load_step(s, rets[0]), rets.drop_first());
        (end, n + 1)
    }
}

/// A batch of files loaded one by one, stopping at the first that fails.
///
/// Success means that the native side accepted each request: loading goes on
/// after the command has returned, and entries may finish in any order.
pub struct LoadSession {
    next: usize,
    len: usize,
    outcome: Option<Result<()>>,
}

impl View for LoadSession {
    type V = LoadState;

    closed spec fn view(&self) -> LoadState {
        LoadState { next: self.next as nat, len: self.len as nat, outcome: self.outcome }
    }
}

impl LoadSession {
    /// True when the counts agree: entries are sent only while some remain.
    pub closed spec fn wf(&self) -> bool {
        self.next <= self.len && (self.outcome is None ==> self.next < self.len)
    }

    /// A batch of `len` entries; an empty batch is over at once.
    pub fn new(len: usize) -> (r: LoadSession)
        ensures
            r.wf(),
            r@ == (LoadState {
                next: 0,
                len: len as nat,
                outcome: if len == 0 {
                    Some(Ok::<(), Error>(()))
                } else {
                    None
                },
            }),
    {
        LoadSession { next: 0, len, outcome: if len == 0 { Some(Ok(())) } else { None } }
    }

    /// The index of the entry to send next, or `None` once the batch is over.
    pub fn pending(&self) -> (r: Option<usize>)
        requires
            self.wf(),
        ensures
            self@.outcome is None ==> r == Some(self@.next as usize) && self@.next < self@.len,
            self@.outcome is Some ==> r is None,
    {
        if self.outcome.is_none() {
            Some(self.next)
        } else {
            None
        }
    }

    /// Takes in how the entry sent last fared.
    pub fn record(&mut self, ret: Result<()>)
        requires
            old(self).wf(),
            old(self)@.outcome is None,
        ensures
            final(self).wf(),
            final(self)@ == load_step(old(self)@, ret),
    {
        match ret {
            Ok(()) => {
                self.next = self.next + 1;
                if self.next >= self.len {
                    self.outcome = Some(Ok(()));
                }
            },
            Err(e) => {
                self.outcome = Some(Err(Error::Loadfiles { index: self.next, error: Rc::new(e) }));
            },
        }
    }

    /// How the batch ended, or `None` while entries remain.
    pub fn outcome(self) -> (r: Option<Result<()>>)
        ensures
            r == self@.outcome,
    {
        self.outcome
    }
}

proof fn lemma_load_run_ok_prefix(s: LoadState, rets: Seq<Result<()>>, k: nat)
    requires
        s.outcome is None,
        s.next + k < s.len,
        k <= rets.len(),
        forall|i: int| 0 <= i < k ==> rets[i] is Ok,
    ensures
        load_run(s, rets).0 == load_run(
            LoadState { next: s.next + k, ..s },
            rets.subrange(k as int, rets.len() as int),
        ).0,
        load_run(s, rets).1 == k + load_run(
            LoadState { next: s.next + k, ..s },
            rets.subrange(k as int, rets.len() as int),
        ).1,
    decreases k,
{
    if k == 0 {
        assert(rets.subrange(0, rets.len() as int) =~= rets);
    } else {
        let s1 = load_step(s, rets[0]);
        assert(s1 == LoadState { next: s.next + 1, ..s });
        let r1 = rets.drop_first();
        assert forall|i: int| 0 <= i < (k - 1) as nat implies r1[i] is Ok by {
            assert(r1[i] == rets[i + 1]);
        }
        lemma_load_run_ok_prefix(s1, r1, (k - 1) as nat);
        assert(r1.subrange((k - 1) as int, r1.len() as int) =~= rets.subrange(
            k as int,
            rets.len() as int,
        ));
    }
}

/// When entry `k` is the first whose command fails, the batch reports
/// `Loadfiles` with index `k` and that command's error, and exactly the entries
/// `0..=k` were sent: every one before `k`, and none after it.
pub proof fn lemma_load_stops_at_first_failure(len: nat, rets: Seq<Result<()>>, k: nat)
    requires
        k < len,
        k < rets.len(),
        forall|i: int| 0 <= i < k ==> rets[i] is Ok,
        rets[k as int] is Err,
    ensures
        load_run(LoadState { next: 0, len, outcome: None }, rets).1 == k + 1,
        load_run(LoadState { next: 0, len, outcome: None }, rets).0.outcome == Some(
            Err::<(), Error>(
                Error::Loadfiles { index: k as usize, error: Rc::new(rets[k as int]->Err_0) },
            ),
        ),
{
    let s = LoadState { next: 0, len, outcome: None };
    lemma_load_run_ok_prefix(s, rets, k);
    let sk = LoadState { next: k, ..s };
    let tail = rets.subrange(k as int, rets.len() as int);
    assert(tail[0] == rets[k as int]);
    let s2 = load_step(sk, tail[0]);
    assert(s2.outcome is Some);
    assert(load_run(s2, tail.drop_first()) == (s2, 0nat));
}

} // verus!
