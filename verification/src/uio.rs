//! Transfer descriptors: one per request, moving bytes between the kernel
//! and the user's buffer while keeping count of what is left to move.

use crate::error::Error;
use vstd::prelude::*;

verus! {

/// The host's primitive that copies from user space into the kernel.
///
/// The primitive comes with a relation that says what one copy does. A host
/// may state its own relation, and the reader promises it to its callers; a
/// host that states none promises nothing.
pub trait CopyIn {
    /// What one copy does: `self` is the host before and `after` the host
    /// after, `offset` and `len` are what was asked for, `before` and
    /// `filled` are the buffer before and after, and `status` is what the
    /// copy returned.
    open spec fn copied(
        &self,
        after: &Self,
        offset: nat,
        len: nat,
        before: Seq<u8>,
        filled: Seq<u8>,
        status: i32,
    ) -> bool {
        true
    }

    /// Copies `len` bytes of the user's segment, starting `offset` bytes
    /// into it, to the front of `buf`. Returns 0 on success and another
    /// status on failure.
    fn copy_in(&mut self, offset: usize, buf: &mut [u8], len: usize) -> (status: i32)
        requires
            len <= old(buf)@.len(),
        ensures
            final(buf)@.len() == old(buf)@.len(),
            old(self).copied(
                final(self),
                offset as nat,
                len as nat,
                old(buf)@,
                final(buf)@,
                status,
            ),
    ;
}

/// The host's primitive that moves kernel bytes out to the user's buffer.
///
/// The primitive comes with a relation that says what one move does. A host
/// may state its own relation, and the writer promises it to its callers; a
/// host that states none promises nothing.
pub trait BufferMove {
    /// What one move does: `self` is the host before and `after` the host
    /// after, `data`, `start` and `len` are what was handed over, and
    /// `status` is what the move returned.
    open spec fn moved(&self, after: &Self, data: Seq<u8>, start: nat, len: nat, status: i32) -> bool {
        true
    }

    /// Moves `len` bytes of `data`, starting at index `start`, to the user.
    /// Returns 0 on success and another status on failure.
    fn buffer_move(&mut self, data: &[u8], start: usize, len: usize) -> (status: i32)
        requires
            start + len <= data@.len(),
        ensures
            old(self).moved(final(self), data@, start as nat, len as nat, status),
    ;
}

/// The smaller of two lengths.
pub open spec fn min_len(a: nat, b: nat) -> nat {
    if a <= b {
        a
    } else {
        b
    }
}

/// The number of bytes that one `read` copies: what the buffer can take, or
/// what is left of the segment past the offset, whichever is less.
pub open spec fn read_len(segment_len: nat, offset: nat, buf_len: nat) -> nat {
    if offset <= segment_len {
        min_len(buf_len, (segment_len - offset) as nat)
    } else {
        0
    }
}

/// The number of bytes that one `write` moves: what the request can still
/// take, or what the buffer holds past the offset, whichever is less.
pub open spec fn write_len(offset: nat, resid: nat, buf_len: nat) -> nat {
    if offset <= buf_len {
        min_len((buf_len - offset) as nat, resid)
    } else {
        0
    }
}

/// The bytes that a sequence of reads hands to its callers, on a segment of
/// `segment_len` bytes read up to `offset`. Each read is given by the length
/// of its buffer and by whether the host's copy succeeded: a failed copy
/// hands over nothing, but the offset moves on all the same.
pub open spec fn total_read(segment_len: nat, offset: nat, calls: Seq<(nat, bool)>) -> nat
    decreases calls.len(),
{
    if calls.len() == 0 {
        0
    } else {
        let n = read_len(segment_len, offset, calls[0].0);
        let rest = total_read(segment_len, offset + n, calls.drop_first());
        if calls[0].1 {
            n + rest
        } else {
            rest
        }
    }
}

/// The bytes that a sequence of writes moves to the user, on a request at
/// `offset` that can still take `resid` bytes. Each write is given by the
/// length of its buffer and by whether the host's move succeeded: a failed
/// move delivers nothing and leaves the request as it was.
pub open spec fn total_written(offset: nat, resid: nat, calls: Seq<(nat, bool)>) -> nat
    decreases calls.len(),
{
    if calls.len() == 0 {
        0
    } else {
        let n = write_len(offset, resid, calls[0].0);
        if calls[0].1 {
            n + total_written(offset + n, (resid - n) as nat, calls.drop_first())
        } else {
            total_written(offset, resid, calls.drop_first())
        }
    }
}

/// However many reads are made, whatever their buffers' lengths and
/// whichever of them fail, the bytes handed over in all never exceed what
/// was left of the segment.
pub proof fn lemma_reads_stay_within_segment(
    segment_len: nat,
    offset: nat,
    calls: Seq<(nat, bool)>,
)
    requires
        offset <= segment_len,
    ensures
        offset + total_read(segment_len, offset, calls) <= segment_len,
    decreases calls.len(),
{
    if calls.len() > 0 {
        let n = read_len(segment_len, offset, calls[0].0);
        lemma_reads_stay_within_segment(segment_len, offset + n, calls.drop_first());
    }
}

/// However many writes are made, whatever their buffers' lengths and
/// whichever of them fail, the bytes moved in all never exceed what the
/// request could take.
pub proof fn lemma_writes_stay_within_request(offset: nat, resid: nat, calls: Seq<(nat, bool)>)
    ensures
        total_written(offset, resid, calls) <= resid,
    decreases calls.len(),
{
    if calls.len() > 0 {
        let n = write_len(offset, resid, calls[0].0);
        if calls[0].1 {
            lemma_writes_stay_within_request(
                offset + n,
                (resid - n) as nat,
                calls.drop_first(),
            );
        } else {
            lemma_writes_stay_within_request(offset, resid, calls.drop_first());
        }
    }
}

/// What a transfer of `len` bytes returns for the status that the host's
/// primitive answered with: the length on status 0, a transfer failure on
/// any other.
pub open spec fn transfer_outcome(len: nat, status: i32) -> Result<usize, Error> {
    if status == 0 {
        Ok(len as usize)
    } else {
        Err(Error::TransferFailed(status))
    }
}

/// What a transfer of `len` bytes returns once the host's primitive has
/// answered: the length on status 0, a transfer failure on any other.
pub fn transfer_result(len: usize, status: i32) -> (r: Result<usize, Error>)
    ensures
        r == transfer_outcome(len as nat, status),
{
    if status == 0 {
        Ok(len)
    } else {
        Err(Error::TransferFailed(status))
    }
}

/// Whether `r` is what a transfer of `len` bytes may return: the length, or
/// a transfer failure with a nonzero status.
pub open spec fn is_transfer_result(r: Result<usize, Error>, len: nat) -> bool {
    match r {
        Ok(n) => n == len,
        Err(Error::TransferFailed(status)) => status != 0,
        Err(_) => false,
    }
}

/// A run of successful copies in chunks of at most [`READ_CHUNK`] bytes:
/// starting from `host`, the segment was copied from `offset` up to `end`,
/// chunk after chunk, each copy answered with status 0, which left the host
/// as `after`; `appended` holds, in order, the bytes that each copy put at
/// the front of its buffer.
pub open spec fn copied_through<H: CopyIn>(
    host: H,
    after: H,
    segment_len: nat,
    offset: nat,
    end: nat,
    appended: Seq<u8>,
) -> bool
    decreases end - offset,
{
    let len = read_len(segment_len, offset, READ_CHUNK as nat);
    if offset >= end {
        offset == end && after == host && appended.len() == 0
    } else if len == 0 || offset + len > end {
        false
    } else {
        exists|mid: H, before: Seq<u8>, filled: Seq<u8>|
            {
                &&& #[trigger] host.copied(&mid, offset, len, before, filled, 0)
                &&& len <= filled.len()
                &&& len <= appended.len()
                &&& appended.subrange(0, len as int) == filled.subrange(0, len as int)
                &&& copied_through(
                    mid,
                    after,
                    segment_len,
                    offset + len,
                    end,
                    appended.subrange(len as int, appended.len() as int),
                )
            }
    }
}

/// A run of successful copies up to `end`, followed by one more successful
/// copy at `end`, is a run of successful copies up to the end of that chunk.
pub proof fn lemma_copied_through_extends<H: CopyIn>(
    host: H,
    mid: H,
    after: H,
    segment_len: nat,
    offset: nat,
    end: nat,
    appended: Seq<u8>,
    before: Seq<u8>,
    filled: Seq<u8>,
)
    requires
        copied_through(host, mid, segment_len, offset, end, appended),
        read_len(segment_len, end, READ_CHUNK as nat) > 0,
        read_len(segment_len, end, READ_CHUNK as nat) <= filled.len(),
        mid.copied(
            &after,
            end,
            read_len(segment_len, end, READ_CHUNK as nat),
            before,
            filled,
            0,
        ),
    ensures
        copied_through(
            host,
            after,
            segment_len,
            offset,
            end + read_len(segment_len, end, READ_CHUNK as nat),
            appended + filled.subrange(0, read_len(segment_len, end, READ_CHUNK as nat) as int),
        ),
    decreases end - offset,
{
    let len = read_len(segment_len, end, READ_CHUNK as nat);
    let tail = filled.subrange(0, len as int);
    let whole = appended + tail;
    if offset >= end {
        assert(whole =~= tail);
        assert(whole.subrange(0, len as int) =~= filled.subrange(0, len as int));
        assert(whole.subrange(len as int, whole.len() as int).len() == 0);
        assert(copied_through(
            after,
            after,
            segment_len,
            end + len,
            end + len,
            whole.subrange(len as int, whole.len() as int),
        ));
    } else {
        let first = read_len(segment_len, offset, READ_CHUNK as nat);
        let (m, b, f) = choose|m: H, b: Seq<u8>, f: Seq<u8>|
            {
                &&& #[trigger] host.copied(&m, offset, first, b, f, 0)
                &&& first <= f.len()
                &&& first <= appended.len()
                &&& appended.subrange(0, first as int) == f.subrange(0, first as int)
                &&& copied_through(
                    m,
                    mid,
                    segment_len,
                    offset + first,
                    end,
                    appended.subrange(first as int, appended.len() as int),
                )
            };
        let rest = appended.subrange(first as int, appended.len() as int);
        lemma_copied_through_extends(
            m,
            mid,
            after,
            segment_len,
            offset + first,
            end,
            rest,
            before,
            filled,
        );
        assert(whole.subrange(0, first as int) =~= appended.subrange(0, first as int));
        assert(whole.subrange(first as int, whole.len() as int) =~= rest + tail);
    }
}

/// Reads the data of one request from the user's segment into the kernel.
pub struct UioReader<H: CopyIn> {
    host: H,
    segment_len: usize,
    resid: usize,
    offset: usize,
    remain: usize,
}

impl<H: CopyIn> UioReader<H> {
    /// The length of the request's first segment.
    pub closed spec fn segment_len(&self) -> nat {
        self.segment_len as nat
    }

    /// The number of bytes of the segment consumed so far.
    pub closed spec fn offset(&self) -> nat {
        self.offset as nat
    }

    /// The number of bytes of the segment still to be read.
    pub closed spec fn remain(&self) -> nat {
        self.remain as nat
    }

    /// The request's residual count.
    pub closed spec fn resid(&self) -> nat {
        self.resid as nat
    }

    /// The host that carries out the copies.
    pub closed spec fn host(&self) -> H {
        self.host
    }

    /// The number of bytes of the segment past the offset: what all further
    /// reads together can copy.
    pub open spec fn left(&self) -> nat {
        read_len(self.segment_len(), self.offset(), self.segment_len())
    }

    /// What has been consumed and what remains make up the segment. This
    /// holds of a new reader and is kept by every operation.
    pub open spec fn consistent(&self) -> bool {
        self.offset() + self.remain() == self.segment_len()
    }

    /// A reader at the start of a segment of `segment_len` bytes, for a
    /// request with `resid` bytes to process.
    pub fn new(host: H, segment_len: usize, resid: usize) -> (r: Self)
        ensures
            r.host() == host,
            r.segment_len() == segment_len,
            r.resid() == resid,
            r.offset() == 0,
            r.remain() == segment_len,
            r.consistent(),
    {
        UioReader { host, segment_len, resid, offset: 0, remain: segment_len }
    }

    /// The number of bytes to process.
    pub fn len(&self) -> (n: usize)
        ensures
            n == self.resid(),
    {
        self.resid
    }

    /// The number of bytes of the segment consumed so far.
    pub fn consumed(&self) -> (n: usize)
        ensures
            n == self.offset(),
    {
        self.offset
    }

    /// The number of bytes of the segment still to be read.
    pub fn remaining(&self) -> (n: usize)
        ensures
            n == self.remain(),
    {
        self.remain
    }

    /// Gives the host back, ending the request.
    pub fn into_host(self) -> (host: H)
        ensures
            host == self.host(),
    {
        self.host
    }

    /// Copies up to `buf.len()` bytes from the user's segment to the front
    /// of `buf` and moves the offset past them, whether or not the copy
    /// succeeded. With nothing left to copy, or an empty buffer, it returns
    /// `Ok(0)` and changes nothing. Otherwise the host is asked once, for
    /// that many bytes from the old offset, and its status decides the
    /// result.
    pub fn read(&mut self, buf: &mut [u8]) -> (r: Result<usize, Error>)
        ensures
            final(self).segment_len() == old(self).segment_len(),
            final(self).resid() == old(self).resid(),
            old(self).consistent() ==> final(self).consistent(),
            ({
                let len = read_len(old(self).segment_len(), old(self).offset(), old(buf)@.len());
                &&& final(self).offset() == old(self).offset() + len
                &&& is_transfer_result(r, len)
                &&& len == 0 ==> {
                    &&& r == Ok::<usize, Error>(0)
                    &&& final(self).remain() == old(self).remain()
                    &&& final(self).host() == old(self).host()
                    &&& final(buf)@ == old(buf)@
                }
                &&& len > 0 ==> final(self).remain() == old(self).segment_len() - final(self).offset()
                &&& len > 0 ==> exists|status: i32|
                    {
                        &&& #[trigger] old(self).host().copied(
                            &final(self).host(),
                            old(self).offset(),
                            len,
                            old(buf)@,
                            final(buf)@,
                            status,
                        )
                        &&& r == transfer_outcome(len, status)
                    }
            }),
            final(buf)@.len() == old(buf)@.len(),
    {
        let buf_len: usize = buf.len();
        let left: usize = if self.offset <= self.segment_len {
            self.segment_len - self.offset
        } else {
            0
        };
        let len: usize = if buf_len <= left {
            buf_len
        } else {
            left
        };
        if len == 0 {
            return Ok(0);
        }
        self.remain = left - len;
        let status = self.host.copy_in(self.offset, buf, len);
        self.offset = self.offset + len;
        let r = transfer_result(len, status);
        proof {
            assert(old(self).host().copied(
                &self.host(),
                old(self).offset(),
                len as nat,
                old(buf)@,
                buf@,
                status,
            ));
            assert(r == transfer_outcome(len as nat, status));
        }
        r
    }

    /// Reads everything that is left of the segment, in chunks of at most
    /// [`READ_CHUNK`] bytes, and appends what the host copied to `out`. It
    /// stops at the first failed copy and returns that copy's failure; what
    /// the copies before it brought is in `out` all the same. On success it
    /// returns the number of bytes consumed, and the segment is used up.
    pub fn read_to_end(&mut self, out: &mut Vec<u8>) -> (r: Result<usize, Error>)
        ensures
            final(self).segment_len() == old(self).segment_len(),
            final(self).resid() == old(self).resid(),
            old(self).consistent() ==> final(self).consistent(),
            old(self).offset() <= final(self).offset(),
            final(self).offset() <= old(self).offset() + old(self).left(),
            old(out)@.len() <= final(out)@.len(),
            final(out)@.subrange(0, old(out)@.len() as int) == old(out)@,
            match r {
                Ok(n) => {
                    &&& n == old(self).left()
                    &&& final(self).offset() == old(self).offset() + n
                    &&& final(out)@.len() == old(out)@.len() + n
                    &&& copied_through(
                        old(self).host(),
                        final(self).host(),
                        old(self).segment_len(),
                        old(self).offset(),
                        final(self).offset(),
                        final(out)@.subrange(old(out)@.len() as int, final(out)@.len() as int),
                    )
                },
                Err(e) => exists|host: H, offset: nat, before: Seq<u8>, filled: Seq<u8>, status: i32|
                    {
                        &&& copied_through(
                            old(self).host(),
                            host,
                            old(self).segment_len(),
                            old(self).offset(),
                            offset,
                            final(out)@.subrange(old(out)@.len() as int, final(out)@.len() as int),
                        )
                        &&& final(self).offset() == offset + read_len(
                            old(self).segment_len(),
                            offset,
                            READ_CHUNK as nat,
                        )
                        &&& #[trigger] host.copied(
                            &final(self).host(),
                            offset,
                            read_len(old(self).segment_len(), offset, READ_CHUNK as nat),
                            before,
                            filled,
                            status,
                        )
                        &&& status != 0
                        &&& e == Error::TransferFailed(status)
                    },
            },
            old(self).left() == 0 ==> r == Ok::<usize, Error>(0) && final(out)@ == old(out)@,
    {
        let ghost start = self.offset();
        let ghost seg = self.segment_len();
        let ghost before = out@;
        let mut total: usize = 0;
        assert(out@.subrange(0, before.len() as int) == before);
        while self.offset < self.segment_len
            invariant
                start == old(self).offset(),
                seg == old(self).segment_len(),
                before == old(out)@,
                self.segment_len() == seg,
                self.resid() == old(self).resid(),
                old(self).consistent() ==> self.consistent(),
                start <= seg ==> self.offset() == start + total,
                start > seg ==> self.offset() == start && total == 0,
                self.offset() <= seg || self.offset() == start,
                out@.len() == before.len() + total,
                out@.subrange(0, before.len() as int) == before,
                total == 0 ==> out@ == before,
                copied_through(
                    old(self).host(),
                    self.host(),
                    seg,
                    start,
                    self.offset(),
                    out@.subrange(before.len() as int, out@.len() as int),
                ),
            decreases self.segment_len() - self.offset(),
        {
            let mut chunk: Vec<u8> = vec![0u8; READ_CHUNK];
            let ghost host_before = self.host();
            let ghost offset_before = self.offset();
            let ghost chunk_before = chunk@;
            let ghost appended = out@.subrange(before.len() as int, out@.len() as int);
            let copied = self.read(chunk.as_mut_slice());
            match copied {
                Ok(n) => {
                    let ghost grown = out@;
                    let mut i: usize = 0;
                    while i < n
                        invariant
                            i <= n <= chunk@.len(),
                            out@ == grown + chunk@.subrange(0, i as int),
                        decreases n - i,
                    {
                        out.push(chunk[i]);
                        i = i + 1;
                        proof {
                            assert(out@ =~= grown + chunk@.subrange(0, i as int));
                        }
                    }
                    total = total + n;
                    proof {
                        assert(host_before.copied(
                            &self.host(),
                            offset_before,
                            n as nat,
                            chunk_before,
                            chunk@,
                            0,
                        ));
                        lemma_copied_through_extends(
                            old(self).host(),
                            host_before,
                            self.host(),
                            seg,
                            start,
                            offset_before,
                            appended,
                            chunk_before,
                            chunk@,
                        );
                        assert(out@.subrange(before.len() as int, out@.len() as int) =~= appended
                            + chunk@.subrange(0, n as int));
                        assert(out@.subrange(0, before.len() as int) =~= before);
                    }
                },
                Err(e) => {
                    return Err(e);
                },
            }
        }
        Ok(total)
    }
}

/// The most bytes that `read_to_end` asks of the host in one copy.
pub const READ_CHUNK: usize = 32;

/// Sends the data of one request from the kernel up to the user's buffer.
pub struct UioWriter<H: BufferMove> {
    host: H,
    offset: usize,
    resid: usize,
}

impl<H: BufferMove> UioWriter<H> {
    /// The request's offset: the index of the next byte to deliver.
    pub closed spec fn offset(&self) -> nat {
        self.offset as nat
    }

    /// The number of bytes that the request can still take.
    pub closed spec fn resid(&self) -> nat {
        self.resid as nat
    }

    /// The host that carries out the moves.
    pub closed spec fn host(&self) -> H {
        self.host
    }

    /// A writer for a request at `offset` that can take `resid` bytes.
    pub fn new(host: H, offset: usize, resid: usize) -> (w: Self)
        ensures
            w.host() == host,
            w.offset() == offset,
            w.resid() == resid,
    {
        UioWriter { host, offset, resid }
    }

    /// The number of bytes to process.
    pub fn len(&self) -> (n: usize)
        ensures
            n == self.resid(),
    {
        self.resid
    }

    /// The request's offset.
    pub fn position(&self) -> (n: usize)
        ensures
            n == self.offset(),
    {
        self.offset
    }

    /// Gives the host back, ending the request.
    pub fn into_host(self) -> (host: H)
        ensures
            host == self.host(),
    {
        self.host
    }

    /// One move of `buf` through this writer that the host answered with
    /// `status`: the host was handed `buf`, the offset and the amount that
    /// the request takes; on status 0 the offset has advanced and the
    /// residual count has dropped by that amount, on any other status both
    /// are as they were.
    pub open spec fn moved_once(&self, after: &Self, buf: Seq<u8>, status: i32) -> bool {
        let amount = write_len(self.offset(), self.resid(), buf.len());
        &&& self.host().moved(&after.host(), buf, self.offset(), amount, status)
        &&& status == 0 ==> after.offset() == self.offset() + amount && after.resid()
            == self.resid() - amount
        &&& status != 0 ==> after.offset() == self.offset() && after.resid() == self.resid()
    }

    /// Moves to the user as much of `buf` past the request's offset as the
    /// request can take. With nothing to move it returns the offset and
    /// changes nothing. Otherwise the host is asked once, for that amount
    /// of `buf` from the offset, and its status decides the result: a
    /// successful move advances the offset and lowers the residual count by
    /// the bytes moved; a failed one changes neither.
    pub fn write(&mut self, buf: &[u8]) -> (r: Result<usize, Error>)
        ensures
            ({
                let amount = write_len(old(self).offset(), old(self).resid(), buf@.len());
                &&& amount == 0 ==> {
                    &&& r == Ok::<usize, Error>(old(self).offset() as usize)
                    &&& *final(self) == *old(self)
                }
                &&& amount > 0 ==> exists|status: i32|
                    {
                        &&& #[trigger] old(self).moved_once(final(self), buf@, status)
                        &&& r == transfer_outcome(amount, status)
                    }
            }),
    {
        let offset: usize = self.offset;
        let amount_buf: usize = if offset <= buf.len() {
            buf.len() - offset
        } else {
            0
        };
        let amount: usize = if amount_buf <= self.resid {
            amount_buf
        } else {
            self.resid
        };
        if amount == 0 {
            return Ok(offset);
        }
        let status = self.host.buffer_move(buf, offset, amount);
        if status == 0 {
            self.offset = offset + amount;
            self.resid = self.resid - amount;
        }
        let r = transfer_result(amount, status);
        proof {
            assert(old(self).moved_once(&*self, buf@, status));
            assert(r == transfer_outcome(amount as nat, status));
        }
        r
    }

    /// Moves `buf` to the user with as many writes as it takes: until a
    /// write finds nothing more to move, or fails. With nothing to move it
    /// changes nothing. Otherwise the host is asked once, as in `write`: on
    /// status 0 everything that the request could take of `buf` past the
    /// offset has been moved, on any other status that failure is returned.
    pub fn write_all(&mut self, buf: &[u8]) -> (r: Result<(), Error>)
        ensures
            ({
                let amount = write_len(old(self).offset(), old(self).resid(), buf@.len());
                &&& amount == 0 ==> r == Ok::<(), Error>(()) && *final(self) == *old(self)
                &&& amount > 0 ==> exists|status: i32|
                    {
                        &&& #[trigger] old(self).moved_once(final(self), buf@, status)
                        &&& status == 0 ==> r == Ok::<(), Error>(())
                        &&& status != 0 ==> r == Err::<(), Error>(Error::TransferFailed(status))
                    }
            }),
            r is Ok ==> write_len(final(self).offset(), final(self).resid(), buf@.len()) == 0,
    {
        let ghost done = false;
        while self.pending(buf.len()) > 0
            invariant
                !done ==> *self == *old(self),
                done ==> {
                    &&& write_len(old(self).offset(), old(self).resid(), buf@.len()) > 0
                    &&& old(self).moved_once(&*self, buf@, 0)
                    &&& write_len(self.offset(), self.resid(), buf@.len()) == 0
                },
            decreases self.resid(),
        {
            let moved = self.write(buf);
            match moved {
                Ok(_) => {
                    proof {
                        done = true;
                    }
                },
                Err(e) => {
                    return Err(e);
                },
            }
        }
        Ok(())
    }

    /// The number of bytes that a write of a buffer of `buf_len` bytes would
    /// move now.
    pub fn pending(&self, buf_len: usize) -> (amount: usize)
        ensures
            amount == write_len(self.offset(), self.resid(), buf_len as nat),
    {
        let amount_buf: usize = if self.offset <= buf_len {
            buf_len - self.offset
        } else {
            0
        };
        if amount_buf <= self.resid {
            amount_buf
        } else {
            self.resid
        }
    }

    /// Nothing is buffered, so there is nothing to flush.
    pub fn flush(&mut self) -> (r: Result<(), Error>)
        ensures
            r is Ok,
            *final(self) == *old(self),
    {
        Ok(())
    }
}

} // verus!
