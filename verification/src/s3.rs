//! Object-store helpers: classifying service failures, deciding existence
//! from a head call's outcome, splitting a key listing into deletion
//! batches, and computing the destination key of a prefixed copy.
use vstd::prelude::*;
use vstd::string::StrSliceExecFns;
use vstd::string::StringExecFns;

verus! {

/// The service failure kinds the helpers tell apart; everything else is
/// opaque.
#[derive(Clone, Copy, Debug, PartialEq, Eq, Structural)]
pub enum ServiceErrorKind {
    NoSuchKey,
    NoSuchBucket,
    NotFound,
    Other,
}

/// How an object-store call can fail: a classified service failure, or a
/// local validation failure.
#[derive(Clone, Debug, PartialEq, Eq)]
pub enum Error {
    AwsSdk(ServiceErrorKind),
    ValidationError(String),
}

impl Error {
    /// Whether this is the service saying the key does not exist.
    pub fn is_no_such_key(&self) -> (r: bool)
        ensures
            r == (*self == Error::AwsSdk(ServiceErrorKind::NoSuchKey)),
    {
        matches!(self, Error::AwsSdk(ServiceErrorKind::NoSuchKey))
    }

    /// Whether this is the service saying the bucket does not exist.
    pub fn is_no_such_bucket(&self) -> (r: bool)
        ensures
            r == (*self == Error::AwsSdk(ServiceErrorKind::NoSuchBucket)),
    {
        matches!(self, Error::AwsSdk(ServiceErrorKind::NoSuchBucket))
    }

    /// Whether this is the service's plain not-found answer.
    pub fn is_not_found(&self) -> (r: bool)
        ensures
            r == (*self == Error::AwsSdk(ServiceErrorKind::NotFound)),
    {
        matches!(self, Error::AwsSdk(ServiceErrorKind::NotFound))
    }
}

/// What a head call's outcome says about existence: success means the
/// object exists, a missing key or bucket means it does not, and any other
/// failure stays a failure.
pub open spec fn exists_outcome(head: Result<(), Error>) -> Result<bool, Error> {
    match head {
        Ok(()) => Ok(true),
        Err(e) => if e == Error::AwsSdk(ServiceErrorKind::NoSuchKey) || e == Error::AwsSdk(
            ServiceErrorKind::NoSuchBucket,
        ) {
            Ok(false)
        } else {
            Err(e)
        },
    }
}

/// Decides whether an object exists from the outcome of a head call.
pub fn object_exists(head: Result<(), Error>) -> (r: Result<bool, Error>)
    ensures
        r == exists_outcome(head),
{
    match head {
        Ok(()) => Ok(true),
        Err(e) => {
            if e.is_no_such_key() || e.is_no_such_bucket() {
                Ok(false)
            } else {
                Err(e)
            }
        },
    }
}

/// A key listing split into deletion batches: full batches of `n` keys,
/// then whatever remains.
pub open spec fn chunks_spec(keys: Seq<String>, n: int) -> Seq<Seq<String>>
    decreases keys.len(),
{
    if keys.len() == 0 {
        seq![]
    } else if n < 1 || keys.len() <= n {
        seq![keys]
    } else {
        seq![keys.take(n)] + chunks_spec(keys.skip(n), n)
    }
}

/// The chunks by view.
pub open spec fn chunks_view(s: Seq<Vec<String>>) -> Seq<Seq<String>> {
    s.map_values(|c: Vec<String>| c@)
}

/// Splits the keys into deletion batches of at most `batch_size`, in
/// order: every batch but the last is full, and nothing is lost.
#[verifier::loop_isolation(false)]
pub fn chunk_keys(keys: Vec<String>, batch_size: usize) -> (out: Vec<Vec<String>>)
    requires
        batch_size >= 1,
    ensures
        chunks_view(out@) == chunks_spec(keys@, batch_size as int),
{
    let ghost target = chunks_spec(keys@, batch_size as int);
    let mut rest = keys;
    let mut out: Vec<Vec<String>> = Vec::new();
    proof {
        assert(chunks_view(out@) + chunks_spec(rest@, batch_size as int) =~= target);
    }
    loop
        invariant
            target == chunks_view(out@) + chunks_spec(rest@, batch_size as int),
        decreases rest@.len(),
    {
        if rest.len() == 0 {
            proof {
                assert(target =~= chunks_view(out@));
            }
            return out;
        }
        if rest.len() <= batch_size {
            let ghost pre = chunks_view(out@);
            let ghost last = rest@;
            out.push(rest);
            proof {
                assert(chunks_view(out@) =~= pre.push(last));
                assert(chunks_spec(last, batch_size as int) =~= seq![last]);
                assert(target =~= chunks_view(out@));
            }
            return out;
        }
        let ghost pre = chunks_view(out@);
        let ghost whole = rest@;
        let tail = rest.split_off(batch_size);
        out.push(rest);
        rest = tail;
        proof {
            assert(chunks_view(out@) =~= pre.push(whole.take(batch_size as int)));
            assert(rest@ =~= whole.skip(batch_size as int));
            assert(target =~= chunks_view(out@) + chunks_spec(rest@, batch_size as int));
        }
    }
}

/// The key left when `prefix` heads `key`, if it does.
pub open spec fn stripped_key(key: Seq<char>, prefix: Seq<char>) -> Option<Seq<char>> {
    if prefix.len() <= key.len() && key.take(prefix.len() as int) == prefix {
        Some(key.skip(prefix.len() as int))
    } else {
        None
    }
}

/// Strips `prefix` off the front of `key`, when it is there.
pub fn strip_prefix_key(key: &str, prefix: &str) -> (r: Option<String>)
    ensures
        match r {
            Some(s) => stripped_key(key@, prefix@) == Some(s@),
            None => stripped_key(key@, prefix@) is None,
        },
{
    let kn = key.unicode_len();
    let pn = prefix.unicode_len();
    if pn > kn {
        return None;
    }
    let mut i: usize = 0;
    while i < pn
        invariant
            i <= pn <= kn,
            pn == prefix@.len(),
            kn == key@.len(),
            forall|j: int| 0 <= j < i ==> key@[j] == prefix@[j],
        decreases pn - i,
    {
        if key.get_char(i) != prefix.get_char(i) {
            proof {
                assert(key@.take(pn as int)[i as int] != prefix@[i as int]);
            }
            return None;
        }
        i += 1;
    }
    proof {
        assert(key@.take(pn as int) =~= prefix@);
    }
    let rest = key.substring_char(pn, kn);
    Some(rest.to_owned())
}

/// The destination key of a prefixed copy: the destination prefix, a
/// slash, and the stripped source key.
pub fn copy_destination_key(dst_prefix: &str, stripped: &str) -> (r: String)
    ensures
        r@ == dst_prefix@ + "/"@ + stripped@,
{
    let mut s: String = dst_prefix.to_owned();
    s.append("/");
    s.append(stripped);
    s
}

} // verus!
