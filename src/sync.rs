use vstd::prelude::*;

use crate::meta::opt_string_view;
use crate::upload::{items_view, ItemKind, TransferError, TransferItem};

verus! {

/// A request for the file-transfer session.
#[derive(Debug)]
pub enum Request {
    /// Send the local file to the remote path.
    Put { local: String, remote: String },
    /// Make the remote directory the working directory.
    ChangeDir(String),
    /// Create the remote directory.
    MakeDir(String),
    /// Close the session.
    Quit,
}

pub enum RequestView {
    Put(Seq<char>, Seq<char>),
    ChangeDir(Seq<char>),
    MakeDir(Seq<char>),
    Quit,
}

impl View for Request {
    type V = RequestView;

    open spec fn view(&self) -> RequestView {
        match self {
            Request::Put { local, remote } => RequestView::Put(local@, remote@),
            Request::ChangeDir(d) => RequestView::ChangeDir(d@),
            Request::MakeDir(d) => RequestView::MakeDir(d@),
            Request::Quit => RequestView::Quit,
        }
    }
}

/// The request whose answer the session waits for.
#[derive(Clone, Copy, Debug, PartialEq, Eq, Structural)]
pub enum Waiting {
    Nothing,
    Put,
    ChangeDir,
    MakeDir,
    Quit,
}

/// The state of an upload: the items, how many are done, the remote working
/// directory as far as this session changed it, and the remote path of a
/// failed upload.
pub struct SyncView {
    pub items: Seq<(Seq<char>, Seq<char>, ItemKind)>,
    pub next: nat,
    pub waiting: Waiting,
    pub cwd: Option<Seq<char>>,
    pub failed: Option<Seq<char>>,
    pub quit: bool,
}

/// Passes over directories that are the working directory already.
pub open spec fn skip_current(s: SyncView) -> SyncView
    decreases s.items.len() - s.next,
{
    if s.failed is None && s.next < s.items.len() && s.items[s.next as int].2
        == ItemKind::Directory && s.cwd == Some(s.items[s.next as int].1) {
        skip_current(SyncView { next: s.next + 1, ..s })
    } else {
        s
    }
}

/// The next request of a session that waits for nothing: the next item's
/// upload or directory change, or the closing of the session once all
/// items are done or one failed.
pub open spec fn issue(s: SyncView) -> (SyncView, Option<RequestView>) {
    let t = skip_current(s);
    if t.failed is Some || t.next >= t.items.len() {
        if t.quit {
            (SyncView { waiting: Waiting::Nothing, ..t }, None)
        } else {
            (SyncView { waiting: Waiting::Quit, quit: true, ..t }, Some(RequestView::Quit))
        }
    } else {
        let item = t.items[t.next as int];
        match item.2 {
            ItemKind::File => (
                SyncView { waiting: Waiting::Put, ..t },
                Some(RequestView::Put(item.0, item.1)),
            ),
            ItemKind::Directory => (
                SyncView { waiting: Waiting::ChangeDir, ..t },
                Some(RequestView::ChangeDir(item.1)),
            ),
        }
    }
}

/// The state and next request once the awaited request succeeded or not.
/// A failed upload ends the batch; a failed directory change is followed by
/// a creation of the directory, and whatever that answers, the next item
/// follows.
pub open spec fn answer(s: SyncView, ok: bool) -> (SyncView, Option<RequestView>) {
    let idle = SyncView { waiting: Waiting::Nothing, ..s };
    match s.waiting {
        Waiting::Put => if ok {
            issue(SyncView { next: s.next + 1, ..idle })
        } else {
            issue(SyncView { failed: Some(s.items[s.next as int].1), ..idle })
        },
        Waiting::ChangeDir => if ok {
            issue(SyncView { next: s.next + 1, cwd: Some(s.items[s.next as int].1), ..idle })
        } else {
            (SyncView { waiting: Waiting::MakeDir, ..s }, Some(RequestView::MakeDir(s.items[s.next as int].1)))
        },
        Waiting::MakeDir => issue(SyncView { next: s.next + 1, ..idle }),
        _ => (idle, None),
    }
}

/// The state after the requests of a session are answered in turn.
pub open spec fn run_answers(s: SyncView, oks: Seq<bool>) -> SyncView
    decreases oks.len(),
{
    if oks.len() == 0 || s.waiting == Waiting::Nothing {
        s
    } else {
        run_answers(answer(s, oks[0]).0, oks.drop_first())
    }
}

/// The requests issued while the requests of a session are answered in
/// turn.
pub open spec fn requests_after(s: SyncView, oks: Seq<bool>) -> Seq<RequestView>
    decreases oks.len(),
{
    if oks.len() == 0 || s.waiting == Waiting::Nothing {
        Seq::empty()
    } else {
        let (t, r) = answer(s, oks[0]);
        match r {
            Some(q) => seq![q] + requests_after(t, oks.drop_first()),
            None => requests_after(t, oks.drop_first()),
        }
    }
}

pub open spec fn well_formed(s: SyncView) -> bool {
    &&& s.next <= s.items.len()
    &&& s.waiting != Waiting::Nothing && s.waiting != Waiting::Quit ==> s.next < s.items.len()
        && s.failed is None
    &&& s.waiting == Waiting::Put ==> s.items[s.next as int].2 == ItemKind::File
    &&& (s.waiting == Waiting::ChangeDir || s.waiting == Waiting::MakeDir) ==> s.items[s.next as int].2
        == ItemKind::Directory
    &&& s.waiting == Waiting::Quit ==> s.quit
}

pub proof fn lemma_skip_current(s: SyncView)
    requires
        s.next <= s.items.len(),
    ensures
        skip_current(s).next <= s.items.len(),
        skip_current(s).items == s.items,
        skip_current(s).failed == s.failed,
        skip_current(s).cwd == s.cwd,
        skip_current(s).quit == s.quit,
        skip_current(s).waiting == s.waiting,
        skip_current(s).next >= s.next,
        forall|j: int|
            s.next <= j < skip_current(s).next ==> s.items[j].2 == ItemKind::Directory,
    decreases s.items.len() - s.next,
{
    if s.failed is None && s.next < s.items.len() && s.items[s.next as int].2
        == ItemKind::Directory && s.cwd == Some(s.items[s.next as int].1) {
        lemma_skip_current(SyncView { next: s.next + 1, ..s });
    }
}

pub proof fn lemma_issue(s: SyncView)
    requires
        s.next <= s.items.len(),
        s.waiting == Waiting::Nothing,
    ensures
        well_formed(issue(s).0),
        issue(s).0.items == s.items,
        issue(s).0.failed == s.failed,
        issue(s).1 is None <==> issue(s).0.waiting == Waiting::Nothing,
        issue(s).0.waiting == Waiting::Nothing ==> s.quit,
{
    lemma_skip_current(s);
}

pub open spec fn all_directories(items: Seq<(Seq<char>, Seq<char>, ItemKind)>) -> bool {
    forall|i: int| 0 <= i < items.len() ==> (#[trigger] items[i]).2 == ItemKind::Directory
}

/// Directory entries never fail an upload: whether a directory change or
/// creation succeeds or not (the directory may exist already, or the server
/// may report "226 Directory created." as an unexpected answer), a session
/// that uploads only directories ends without a failed item, however often
/// it is run against the same destination.
pub proof fn lemma_directories_never_fail(s: SyncView, oks: Seq<bool>)
    requires
        well_formed(s),
        s.failed is None,
        all_directories(s.items),
    ensures
        run_answers(s, oks).failed is None,
    decreases oks.len(),
{
    if oks.len() == 0 || s.waiting == Waiting::Nothing {
    } else {
        let t = answer(s, oks[0]).0;
        let idle = SyncView { waiting: Waiting::Nothing, ..s };
        match s.waiting {
            Waiting::Put => {
                assert(s.items[s.next as int].2 == ItemKind::Directory);
            },
            Waiting::ChangeDir => {
                if oks[0] {
                    lemma_issue(
                        SyncView { next: s.next + 1, cwd: Some(s.items[s.next as int].1), ..idle },
                    );
                }
            },
            Waiting::MakeDir => {
                lemma_issue(SyncView { next: s.next + 1, ..idle });
            },
            _ => {},
        }
        lemma_directories_never_fail(t, oks.drop_first());
    }
}

/// Whether every upload that the session asks for, while its requests are
/// answered in turn, is answered with success.
pub open spec fn puts_succeed(s: SyncView, oks: Seq<bool>) -> bool
    decreases oks.len(),
{
    if oks.len() == 0 || s.waiting == Waiting::Nothing {
        true
    } else {
        (s.waiting == Waiting::Put ==> oks[0]) && puts_succeed(answer(s, oks[0]).0, oks.drop_first())
    }
}

/// A session of files and directories in which every upload succeeds ends
/// without a failed item, whatever the directory changes and creations
/// answer: a directory that exists already, or a creation answered with
/// "226 Directory created." as an unexpected answer, never fails it. This
/// holds for every session, so a second upload of the same tree against the
/// same remote state succeeds as the first did.
pub proof fn lemma_successful_puts_never_fail(s: SyncView, oks: Seq<bool>)
    requires
        well_formed(s),
        s.failed is None,
        puts_succeed(s, oks),
    ensures
        run_answers(s, oks).failed is None,
    decreases oks.len(),
{
    if oks.len() == 0 || s.waiting == Waiting::Nothing {
    } else {
        let t = answer(s, oks[0]).0;
        let idle = SyncView { waiting: Waiting::Nothing, ..s };
        match s.waiting {
            Waiting::Put => {
                assert(oks[0]);
                lemma_issue(SyncView { next: s.next + 1, ..idle });
            },
            Waiting::ChangeDir => {
                if oks[0] {
                    lemma_issue(
                        SyncView { next: s.next + 1, cwd: Some(s.items[s.next as int].1), ..idle },
                    );
                }
            },
            Waiting::MakeDir => {
                lemma_issue(SyncView { next: s.next + 1, ..idle });
            },
            _ => {},
        }
        lemma_successful_puts_never_fail(t, oks.drop_first());
    }
}

/// A failed upload ends the batch: the only request that follows it is
/// the closing of the session.
pub proof fn lemma_failed_put_stops(s: SyncView, oks: Seq<bool>)
    requires
        well_formed(s),
        s.waiting == Waiting::Put,
    ensures
        forall|i: int|
            0 <= i < requests_after(s, seq![false] + oks).len() ==> (#[trigger] requests_after(
                s,
                seq![false] + oks,
            )[i]) is Quit,
        run_answers(s, seq![false] + oks).failed == Some(s.items[s.next as int].1),
{
    let all = seq![false] + oks;
    let idle = SyncView { waiting: Waiting::Nothing, ..s };
    let f = SyncView { failed: Some(s.items[s.next as int].1), ..idle };
    assert(skip_current(f) == f);
    let (t, r) = answer(s, false);
    assert(all[0] == false);
    assert(all.drop_first() =~= oks);
    let rest = oks;
    if t.waiting == Waiting::Nothing {
        assert(r is None);
        assert(requests_after(t, rest) == Seq::<RequestView>::empty());
        assert(run_answers(t, rest) == t);
    } else {
        assert(t.waiting == Waiting::Quit);
        assert(r == Some(RequestView::Quit));
        if rest.len() > 0 {
            let (u, r2) = answer(t, rest[0]);
            assert(r2 is None);
            assert(u.waiting == Waiting::Nothing);
            assert(requests_after(u, rest.drop_first()) == Seq::<RequestView>::empty());
            assert(run_answers(u, rest.drop_first()) == u);
            assert(requests_after(t, rest) =~= Seq::<RequestView>::empty());
        } else {
            assert(requests_after(t, rest) == Seq::<RequestView>::empty());
        }
        assert(requests_after(s, all) =~= seq![RequestView::Quit]);
    }
}

/// Uploads items over one session, one request at a time.
#[derive(Debug)]
pub struct Synchronizer {
    items: Vec<TransferItem>,
    next: usize,
    waiting: Waiting,
    cwd: Option<String>,
    failed: Option<String>,
    quit: bool,
}

impl View for Synchronizer {
    type V = SyncView;

    closed spec fn view(&self) -> SyncView {
        SyncView {
            items: items_view(self.items@),
            next: self.next as nat,
            waiting: self.waiting,
            cwd: opt_string_view(self.cwd),
            failed: opt_string_view(self.failed),
            quit: self.quit,
        }
    }
}

impl Synchronizer {
    #[verifier::type_invariant]
    spec fn inv(self) -> bool {
        well_formed(self@)
    }

    /// A session that is to upload `items` in order; nothing is sent yet.
    pub fn new(items: Vec<TransferItem>) -> (r: Synchronizer)
        ensures
            r@ == (SyncView {
                items: items_view(items@),
                next: 0,
                waiting: Waiting::Nothing,
                cwd: None,
                failed: None,
                quit: false,
            }),
    {
        Synchronizer { items, next: 0, waiting: Waiting::Nothing, cwd: None, failed: None, quit: false }
    }

    /// Issues the next request, the first one at the start of the session.
    pub fn start(&mut self) -> (r: Option<Request>)
        requires
            old(self)@.waiting == Waiting::Nothing,
        ensures
            (final(self)@, match r {
                Some(q) => Some(q@),
                None => None,
            }) == issue(old(self)@),
    {
        self.issue_next()
    }

    fn issue_next(&mut self) -> (r: Option<Request>)
        requires
            old(self)@.waiting == Waiting::Nothing,
        ensures
            (final(self)@, match r {
                Some(q) => Some(q@),
                None => None,
            }) == issue(old(self)@),
    {
        proof {
            use_type_invariant(&*self);
            lemma_issue(self@);
            lemma_skip_current(self@);
        }
        let ghost start = self@;
        while self.failed.is_none() && self.next < self.items.len() && matches!(self.items[self.next].kind, ItemKind::Directory)
            && self.cwd_is(self.next)
            invariant
                self.next <= self.items@.len(),
                self.waiting == Waiting::Nothing,
                skip_current(self@) == skip_current(start),
                well_formed(self@),
            decreases self.items@.len() - self.next,
        {
            self.next = self.next + 1;
        }
        assert(skip_current(self@) == self@);
        if self.failed.is_some() || self.next >= self.items.len() {
            if self.quit {
                return None;
            }
            self.quit = true;
            self.waiting = Waiting::Quit;
            return Some(Request::Quit);
        }
        let item = &self.items[self.next];
        match item.kind {
            ItemKind::File => {
                self.waiting = Waiting::Put;
                Some(Request::Put { local: item.local.clone(), remote: item.remote.clone() })
            },
            ItemKind::Directory => {
                self.waiting = Waiting::ChangeDir;
                Some(Request::ChangeDir(item.remote.clone()))
            },
        }
    }

    fn cwd_is(&self, i: usize) -> (r: bool)
        requires
            i < self.items@.len(),
        ensures
            r == (self@.cwd == Some(self@.items[i as int].1)),
    {
        match &self.cwd {
            Some(d) => *d == self.items[i].remote,
            None => false,
        }
    }

    /// Takes the answer to the awaited request and issues the next one;
    /// `None` once the session is closed.
    pub fn answer(&mut self, ok: bool) -> (r: Option<Request>)
        requires
            old(self)@.waiting != Waiting::Nothing,
        ensures
            (final(self)@, match r {
                Some(q) => Some(q@),
                None => None,
            }) == answer(old(self)@, ok),
    {
        proof {
            use_type_invariant(&*self);
        }
        let n = self.items.len();
        match self.waiting {
            Waiting::Put => {
                assert(self.next < n);
                self.waiting = Waiting::Nothing;
                if ok {
                    self.next = self.next + 1;
                } else {
                    self.failed = Some(self.items[self.next].remote.clone());
                }
                self.issue_next()
            },
            Waiting::ChangeDir => {
                assert(self.next < n);
                if ok {
                    self.waiting = Waiting::Nothing;
                    self.cwd = Some(self.items[self.next].remote.clone());
                    self.next = self.next + 1;
                    self.issue_next()
                } else {
                    self.waiting = Waiting::MakeDir;
                    Some(Request::MakeDir(self.items[self.next].remote.clone()))
                }
            },
            Waiting::MakeDir => {
                assert(self.next < n);
                self.waiting = Waiting::Nothing;
                self.next = self.next + 1;
                self.issue_next()
            },
            _ => {
                self.waiting = Waiting::Nothing;
                None
            },
        }
    }

    /// How the upload went: the remote path of the upload that failed, if
    /// one did.
    pub fn outcome(&self) -> (r: Result<(), TransferError>)
        ensures
            match self@.failed {
                Some(p) => r matches Err(TransferError::PutFailed(q)) && q@ == p,
                None => r is Ok,
            },
    {
        match &self.failed {
            Some(p) => Err(TransferError::PutFailed(p.clone())),
            None => Ok(()),
        }
    }
}

} // verus!
