//! The receive buffer of a tube.

use crate::io::error::{Error, ErrorKind, ErrorView};
use crate::io::pattern::{first_match_end, pattern_compiles, refusal, search};
use vstd::prelude::*;

verus! {

/// Bytes that a tube has received and not yet handed to its caller, in the
/// order in which they arrived.
#[derive(Debug)]
pub struct Buffer {
    data: Vec<u8>,
}

impl View for Buffer {
    type V = Seq<u8>;

    closed spec fn view(&self) -> Seq<u8> {
        self.data@
    }
}

/// What `get` hands out of a buffer that holds `buf`, asked for `n` bytes.
///
/// A buffer that holds at least `n` bytes gives its first `n`. A shorter one
/// that is not empty gives all it has, unless the request is exact. Otherwise
/// nothing is given.
pub open spec fn get_taken(buf: Seq<u8>, n: nat, exact: bool) -> Option<Seq<u8>> {
    if buf.len() >= n {
        Some(buf.take(n as int))
    } else if !exact && buf.len() > 0 {
        Some(buf)
    } else {
        None
    }
}

/// What stays in the buffer after that `get`.
pub open spec fn get_left(buf: Seq<u8>, n: nat, exact: bool) -> Seq<u8> {
    if buf.len() >= n {
        buf.skip(n as int)
    } else if !exact && buf.len() > 0 {
        Seq::empty()
    } else {
        buf
    }
}

/// Where `get_until` splits a buffer that holds `buf`: just past the first
/// match of `pattern`. There is no such place where nothing matches, nor
/// where `pattern` does not compile. (An end beyond the buffer, which the
/// search never reports, counts as no match.)
pub open spec fn until_end(buf: Seq<u8>, pattern: Seq<char>) -> Option<int> {
    if !pattern_compiles(pattern) {
        None
    } else {
        match first_match_end(pattern, buf) {
            Some(end) => if end <= buf.len() {
                Some(end as int)
            } else {
                None
            },
            None => None,
        }
    }
}

/// What `get_until` hands out: the bytes from the head through the end of
/// the first match, delimiter included.
pub open spec fn until_taken(buf: Seq<u8>, pattern: Seq<char>) -> Option<Seq<u8>> {
    match until_end(buf, pattern) {
        Some(end) => Some(buf.take(end)),
        None => None,
    }
}

/// What stays in the buffer after that `get_until`: the bytes behind the
/// match, or all of them where nothing was given.
pub open spec fn until_left(buf: Seq<u8>, pattern: Seq<char>) -> Seq<u8> {
    match until_end(buf, pattern) {
        Some(end) => buf.skip(end),
        None => buf,
    }
}

/// `get` loses nothing and reorders nothing: what it hands out, followed by
/// what it leaves, is what the buffer held.
pub proof fn lemma_get_conserves(buf: Seq<u8>, n: nat, exact: bool)
    ensures
        match get_taken(buf, n, exact) {
            Some(bytes) => bytes + get_left(buf, n, exact) == buf,
            None => get_left(buf, n, exact) == buf,
        },
{
    if buf.len() >= n {
        assert(buf.take(n as int) + buf.skip(n as int) =~= buf);
    } else if !exact && buf.len() > 0 {
        assert(buf + Seq::<u8>::empty() =~= buf);
    }
}

/// `get` never hands out more than was asked for, an exact `get` never
/// less, and no `get` hands out nothing at all unless nothing was asked for.
pub proof fn lemma_get_sized(buf: Seq<u8>, n: nat, exact: bool)
    ensures
        get_taken(buf, n, exact) matches Some(bytes) ==> bytes.len() <= n && (exact
            ==> bytes.len() == n) && (n > 0 ==> bytes.len() > 0),
{
}

/// `get_until` loses nothing and reorders nothing: what it hands out,
/// followed by what it leaves, is what the buffer held.
pub proof fn lemma_until_conserves(buf: Seq<u8>, pattern: Seq<char>)
    ensures
        match until_taken(buf, pattern) {
            Some(bytes) => bytes + until_left(buf, pattern) == buf,
            None => until_left(buf, pattern) == buf,
        },
{
    match until_end(buf, pattern) {
        Some(end) => {
            assert(buf.take(end) + buf.skip(end) =~= buf);
        },
        None => {},
    }
}

/// `get_until` hands out whole matches only: what it gives ends exactly
/// where the first match of the pattern in the buffer ends.
pub proof fn lemma_until_whole_match(buf: Seq<u8>, pattern: Seq<char>)
    ensures
        until_taken(buf, pattern) matches Some(bytes) ==> pattern_compiles(pattern)
            && first_match_end(pattern, buf) == Some(bytes.len() as usize) && bytes.len()
            <= buf.len(),
{
}

impl Default for Buffer {
    fn default() -> (buf: Buffer)
        ensures
            buf@ == Seq::<u8>::empty(),
    {
        Buffer { data: Vec::new() }
    }
}

impl Buffer {
    /// The number of buffered bytes.
    pub fn len(&self) -> (n: usize)
        ensures
            n == self@.len(),
    {
        self.data.len()
    }

    /// The buffered bytes, oldest first.
    pub fn as_slice(&self) -> (bytes: &[u8])
        ensures
            bytes@ == self@,
    {
        self.data.as_slice()
    }

    /// Moves all bytes of `data` to the tail of the buffer, leaving `data` empty.
    pub fn append(&mut self, data: &mut Vec<u8>)
        ensures
            final(self)@ == old(self)@ + old(data)@,
            final(data)@ == Seq::<u8>::empty(),
    {
        self.data.append(data);
    }

    /// Puts a copy of `data` in front of the buffered bytes: the way to push
    /// back bytes that were taken out and not consumed.
    pub fn prepend(&mut self, data: &mut Vec<u8>)
        ensures
            final(self)@ == old(data)@ + old(self)@,
            final(data)@ == old(data)@,
    {
        let mut head = data.clone();
        head.append(&mut self.data);
        self.data = head;
    }

    /// Removes and returns the first `n` bytes.
    fn take_head(&mut self, n: usize) -> (head: Vec<u8>)
        requires
            n <= old(self)@.len(),
        ensures
            head@ == old(self)@.take(n as int),
            final(self)@ == old(self)@.skip(n as int),
    {
        let rest = self.data.split_off(n);
        let mut head = Vec::new();
        head.append(&mut self.data);
        self.data = rest;
        head
    }

    /// Removes and returns the bytes from the head of the buffer through a
    /// match that ends at offset `end`; with no match, nothing is removed.
    pub fn take_match(&mut self, found: Option<usize>) -> (taken: Option<Vec<u8>>)
        requires
            found matches Some(end) ==> end <= old(self)@.len(),
        ensures
            match found {
                Some(end) => taken matches Some(v) && v@ == old(self)@.take(end as int)
                    && final(self)@ == old(self)@.skip(end as int),
                None => taken is None && final(self)@ == old(self)@,
            },
    {
        match found {
            Some(end) => Some(self.take_head(end)),
            None => None,
        }
    }

    /// Searches the buffered bytes for the regular expression `pat`, which is
    /// matched against the raw bytes.
    ///
    /// Where there is a match, the bytes from the head of the buffer through
    /// the end of the first match are removed and returned, and what follows
    /// the match stays buffered. Where there is none, nothing is returned and
    /// the buffer is unchanged. A text that is not a regular expression is
    /// refused with an error of kind `Pattern`, and the buffer is unchanged.
    /// The whole buffer is searched anew on every call. The end of a match
    /// always lies within the buffer, so that nothing returned means that
    /// nothing matched.
    pub fn get_until(&mut self, pat: &str) -> (found: Result<Option<Vec<u8>>, Error>)
        ensures
            match found {
                Ok(Some(v)) => pattern_compiles(pat@) && until_taken(old(self)@, pat@) == Some(v@),
                Ok(None) => pattern_compiles(pat@) && until_taken(old(self)@, pat@) is None,
                Err(e) => refusal(pat@) matches Some(message) && e@ == ErrorView::caused(
                    ErrorKind::Pattern,
                    message,
                ),
            },
            final(self)@ == until_left(old(self)@, pat@),
            pattern_compiles(pat@) ==> (first_match_end(pat@, old(self)@) matches Some(end)
                ==> end <= old(self)@.len()),
    {
        match search(pat, self.data.as_slice()) {
            Ok(end) => Ok(self.take_match(end)),
            Err(text) => Err(Error::caused(ErrorKind::Pattern, text)),
        }
    }

    /// Takes up to `size` bytes from the head of the buffer.
    ///
    /// With at least `size` bytes buffered, exactly the first `size` are
    /// removed and returned; a request for no bytes is therefore always met,
    /// with no bytes. With fewer, a `strict` request returns nothing and
    /// leaves the buffer untouched; a request that is not strict removes and
    /// returns all that is buffered, or nothing if the buffer is empty.
    pub fn get(&mut self, size: usize, strict: bool) -> (taken: Option<Vec<u8>>)
        ensures
            match get_taken(old(self)@, size as nat, strict) {
                Some(bytes) => taken matches Some(v) && v@ == bytes,
                None => taken is None,
            },
            final(self)@ == get_left(old(self)@, size as nat, strict),
    {
        let buffered: usize = self.data.len();
        if buffered >= size {
            Some(self.take_head(size))
        } else if !strict && buffered > 0 {
            let all = self.take_head(buffered);
            assert(old(self)@.take(buffered as int) =~= old(self)@);
            assert(self@ =~= Seq::<u8>::empty());
            Some(all)
        } else {
            None
        }
    }
}

} // verus!
