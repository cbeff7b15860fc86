//! Cursor-based pagination adapter: a "fetch next page" capability becomes
//! a finite sequence of pages. The cursor distinguishes a listing that has
//! not started, one resumable at a token, and one that is exhausted; a
//! malformed page yields one error and forces exhaustion so a broken
//! listing can never loop.
use crate::error::Error;
use crate::error::InvalidKind;
use vstd::prelude::*;
use vstd::string::StrSliceExecFns;

verus! {

/// Where a paged listing stands: not yet started (no token issued), more
/// pages remain (a nonempty token to resume at), or exhausted.
pub enum Cursor {
    NotStarted,
    Continue(String),
    Exhausted,
}

/// One fetched page: the declared result items, absent when the page is
/// malformed, and the continuation token, absent when no page follows.
pub struct Page<T> {
    pub items: Option<Vec<T>>,
    pub next_token: Option<String>,
}

/// The cursor a page's continuation token leaves behind: an absent or
/// empty token means the listing is exhausted.
pub open spec fn cursor_after_token(token: Option<String>) -> Cursor {
    match token {
        Some(t) => if t@.len() > 0 {
            Cursor::Continue(t)
        } else {
            Cursor::Exhausted
        },
        None => Cursor::Exhausted,
    }
}

/// What one pull produces and where it leaves the cursor: a transport
/// error or a malformed page yields that error and exhausts the cursor; a
/// well-formed page yields its items and moves the cursor to the token.
pub open spec fn absorb_spec<T>(fetched: Result<Page<T>, String>) -> (Result<Vec<T>, Error>, Cursor) {
    match fetched {
        Err(t) => (Err(Error::Transport(t)), Cursor::Exhausted),
        Ok(page) => match page.items {
            Some(items) => (Ok(items), cursor_after_token(page.next_token)),
            None => (Err(Error::Invalid(InvalidKind::MissingResultSet)), Cursor::Exhausted),
        },
    }
}

fn cursor_after(token: Option<String>) -> (c: Cursor)
    ensures
        c == cursor_after_token(token),
{
    match token {
        Some(t) => {
            if t.as_str().is_empty() {
                Cursor::Exhausted
            } else {
                Cursor::Continue(t)
            }
        },
        None => Cursor::Exhausted,
    }
}

/// Absorbs the result of one fetch into the stream: the element to yield
/// and the cursor to carry forward.
pub fn absorb<T>(fetched: Result<Page<T>, String>) -> (r: (Result<Vec<T>, Error>, Cursor))
    ensures
        r == absorb_spec(fetched),
{
    match fetched {
        Err(t) => (Err(Error::Transport(t)), Cursor::Exhausted),
        Ok(page) => match page.items {
            Some(items) => (Ok(items), cursor_after(page.next_token)),
            None => (Err(Error::Invalid(InvalidKind::MissingResultSet)), Cursor::Exhausted),
        },
    }
}

/// The elements the adapter yields for recorded fetch results, pulling
/// from `cursor` until the cursor is exhausted or the recording ends; each
/// yielded element consumed exactly one fetch.
pub open spec fn drain_spec<T>(fetches: Seq<Result<Page<T>, String>>, cursor: Cursor) -> Seq<
    Result<Vec<T>, Error>,
>
    decreases fetches.len(),
{
    if cursor is Exhausted || fetches.len() == 0 {
        seq![]
    } else {
        let stepped = absorb_spec(fetches[0]);
        seq![stepped.0] + drain_spec(fetches.drop_first(), stepped.1)
    }
}

/// Runs a whole listing against recorded fetch results, from the start:
/// the sequence of yielded elements, one fetch consumed per element.
#[verifier::loop_isolation(false)]
pub fn drain_pages<T>(fetches: Vec<Result<Page<T>, String>>) -> (out: Vec<Result<Vec<T>, Error>>)
    ensures
        out@ == drain_spec(fetches@, Cursor::NotStarted),
{
    let ghost target = drain_spec(fetches@, Cursor::NotStarted);
    let mut rest = fetches;
    let mut cursor = Cursor::NotStarted;
    let mut out: Vec<Result<Vec<T>, Error>> = Vec::new();
    loop
        invariant
            target == out@ + drain_spec(rest@, cursor),
        decreases rest@.len(),
    {
        if matches!(cursor, Cursor::Exhausted) || rest.len() == 0 {
            proof {
                assert(target =~= out@);
            }
            return out;
        }
        let fetched = rest.remove(0);
        let stepped = absorb(fetched);
        out.push(stepped.0);
        cursor = stepped.1;
    }
}

/// Each yielded element cost exactly one fetch: the stream never makes a
/// remote call it does not turn into an element, and never yields an
/// element without one.
pub proof fn lemma_one_fetch_per_element<T>(fetches: Seq<Result<Page<T>, String>>, cursor: Cursor)
    ensures
        drain_spec(fetches, cursor).len() <= fetches.len(),
        !(cursor is Exhausted) && fetches.len() > 0 ==> drain_spec(fetches, cursor).len() >= 1,
    decreases fetches.len(),
{
    if cursor is Exhausted || fetches.len() == 0 {
    } else {
        let stepped = absorb_spec(fetches[0]);
        lemma_one_fetch_per_element(fetches.drop_first(), stepped.1);
    }
}

/// The items of a whole listing in one vector, as the eager collectors
/// offer it: pages concatenated in order until the cursor is exhausted or
/// the recording ends, the first error aborting the collection.
pub open spec fn collect_spec<T>(fetches: Seq<Result<Page<T>, String>>, cursor: Cursor) -> Result<
    Seq<T>,
    Error,
>
    decreases fetches.len(),
{
    if cursor is Exhausted || fetches.len() == 0 {
        Ok(seq![])
    } else {
        let stepped = absorb_spec(fetches[0]);
        match stepped.0 {
            Err(e) => Err(e),
            Ok(items) => match collect_spec(fetches.drop_first(), stepped.1) {
                Err(e) => Err(e),
                Ok(tail) => Ok(items@ + tail),
            },
        }
    }
}

/// Collects a whole listing eagerly: the concatenated items of every page,
/// or the first error the stream yielded.
#[verifier::loop_isolation(false)]
pub fn collect_all<T>(fetches: Vec<Result<Page<T>, String>>) -> (r: Result<Vec<T>, Error>)
    ensures
        match r {
            Ok(v) => collect_spec(fetches@, Cursor::NotStarted) == Ok::<Seq<T>, Error>(v@),
            Err(e) => collect_spec(fetches@, Cursor::NotStarted) == Err::<Seq<T>, Error>(e),
        },
{
    let ghost target = collect_spec(fetches@, Cursor::NotStarted);
    let mut rest = fetches;
    let mut cursor = Cursor::NotStarted;
    let mut acc: Vec<T> = Vec::new();
    loop
        invariant
            target == (match collect_spec(rest@, cursor) {
                Ok(tail) => Ok(acc@ + tail),
                Err(e) => Err::<Seq<T>, Error>(e),
            }),
        decreases rest@.len(),
    {
        if matches!(cursor, Cursor::Exhausted) || rest.len() == 0 {
            proof {
                assert(acc@ + Seq::<T>::empty() =~= acc@);
            }
            return Ok(acc);
        }
        let fetched = rest.remove(0);
        let stepped = absorb(fetched);
        match stepped.0 {
            Err(e) => {
                return Err(e);
            },
            Ok(items) => {
                let ghost pre = acc@;
                let ghost mid = items@;
                let mut items = items;
                acc.append(&mut items);
                proof {
                    match collect_spec(rest@, stepped.1) {
                        Ok(tail) => {
                            assert(pre + (mid + tail) =~= (pre + mid) + tail);
                        },
                        Err(_) => {},
                    }
                }
            },
        }
        cursor = stepped.1;
    }
}

/// The concatenation of the items of well-formed pages, in order.
pub open spec fn items_concat<T>(fetches: Seq<Result<Page<T>, String>>) -> Seq<T>
    decreases fetches.len(),
{
    if fetches.len() == 0 {
        seq![]
    } else {
        (match fetches[0] {
            Ok(page) => match page.items {
                Some(items) => items@,
                None => seq![],
            },
            Err(_) => seq![],
        }) + items_concat(fetches.drop_first())
    }
}

/// A listing whose every recorded page is well-formed and whose every page
/// but the last carries a continuing token is collected in full: the
/// result is exactly the concatenation of the pages' items, in order.
pub proof fn lemma_collect_concatenates<T>(fetches: Seq<Result<Page<T>, String>>, cursor: Cursor)
    requires
        !(cursor is Exhausted),
        forall|i: int|
            0 <= i < fetches.len() ==> ((#[trigger] fetches[i]) matches Ok(page)
                && page.items is Some),
        forall|i: int|
            0 <= i < fetches.len() - 1 ==> cursor_after_token(
                (#[trigger] fetches[i])->Ok_0.next_token,
            ) is Continue,
    ensures
        collect_spec(fetches, cursor) == Ok::<Seq<T>, Error>(items_concat(fetches)),
    decreases fetches.len(),
{
    if fetches.len() == 0 {
        assert(items_concat(fetches) =~= Seq::<T>::empty());
    } else {
        let stepped = absorb_spec(fetches[0]);
        if fetches.len() == 1 {
            match collect_spec(fetches.drop_first(), stepped.1) {
                Ok(tail) => {
                    assert(tail =~= Seq::<T>::empty());
                    assert(items_concat(fetches.drop_first()) =~= Seq::<T>::empty());
                },
                Err(_) => {
                    assert(false);
                },
            }
        } else {
            assert(fetches[0] matches Ok(page) && page.items is Some);
            lemma_collect_concatenates(fetches.drop_first(), stepped.1);
            assert(forall|i: int|
                0 <= i < fetches.drop_first().len() ==> fetches.drop_first()[i] == fetches[i
                    + 1]);
        }
    }
}

/// A malformed page ends the stream at once: it yields exactly one
/// element, the invalid-response error, and no further fetch is consumed.
pub proof fn lemma_malformed_page_ends_stream<T>(fetches: Seq<Result<Page<T>, String>>, cursor: Cursor)
    requires
        !(cursor is Exhausted),
        fetches.len() > 0,
        fetches[0] matches Ok(page) && page.items is None,
    ensures
        drain_spec(fetches, cursor) =~= seq![
            Err::<Vec<T>, Error>(Error::Invalid(InvalidKind::MissingResultSet)),
        ],
{
    let stepped = absorb_spec(fetches[0]);
    assert(stepped.1 is Exhausted);
    assert(drain_spec(fetches.drop_first(), stepped.1) =~= Seq::<Result<Vec<T>, Error>>::empty());
}

} // verus!
