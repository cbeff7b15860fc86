//! Result streamer: composes the poller's completion signal with the
//! pagination adapter, so a job's output is enumerated only once the job is
//! known to have succeeded; a job that never got there contributes its
//! error as the stream's only element.
use crate::cursor::collect_spec;
use crate::cursor::drain_pages;
use crate::cursor::drain_spec;
use crate::cursor::collect_all;
use crate::cursor::Cursor;
use crate::cursor::Page;
use crate::error::Error;
use vstd::prelude::*;

verus! {

/// The elements the composed stream yields: on a successful wait, whatever
/// the cursor adapter yields for the job's recorded pages; on a poller
/// error, that single error, with no page fetched.
pub fn stream_job_results<T>(
    wait: Result<String, Error>,
    fetches: Vec<Result<Page<T>, String>>,
) -> (out: Vec<Result<Vec<T>, Error>>)
    ensures
        wait matches Ok(_) ==> out@ == drain_spec(fetches@, Cursor::NotStarted),
        wait matches Err(e) ==> out@ == seq![Err::<Vec<T>, Error>(e)],
{
    match wait {
        Ok(_) => drain_pages(fetches),
        Err(e) => {
            let ghost failure = e;
            let mut out: Vec<Result<Vec<T>, Error>> = Vec::new();
            out.push(Err(e));
            proof {
                assert(out@ =~= seq![Err::<Vec<T>, Error>(failure)]);
            }
            out
        },
    }
}

/// The composed stream collected eagerly: the concatenated output items of
/// a job that succeeded, or the first error on the way there.
pub fn collect_job_output<T>(
    wait: Result<String, Error>,
    fetches: Vec<Result<Page<T>, String>>,
) -> (r: Result<Vec<T>, Error>)
    ensures
        wait matches Err(e) ==> r == Err::<Vec<T>, Error>(e),
        wait matches Ok(_) ==> match r {
            Ok(v) => collect_spec(fetches@, Cursor::NotStarted) == Ok::<Seq<T>, Error>(v@),
            Err(e) => collect_spec(fetches@, Cursor::NotStarted) == Err::<Seq<T>, Error>(e),
        },
{
    match wait {
        Ok(_) => collect_all(fetches),
        Err(e) => Err(e),
    }
}

} // verus!
