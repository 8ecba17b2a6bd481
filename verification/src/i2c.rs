//! I2C transactions on an opened adapter.
//!
//! A transaction is a list of read and write operations on one slave
//! address. Each operation is one call into the C library, which returns
//! the number of bytes it moved or a negative status; the first operation
//! that returns a negative status ends the transaction with that status as
//! its error, and the operations after it are not run. [`Transaction`] holds that decision: it hands out the next
//! request, takes the status that came back, and gives the result.
use vstd::prelude::*;

use crate::error::{check_status, error_message, AardvarkError};

verus! {

/// Flags of an I2C call with a 7-bit slave address.
pub const AA_I2C_NO_FLAGS: u32 = 0x00;

/// Flag of an I2C call with a 10-bit slave address.
pub const AA_I2C_10_BIT_ADDR: u32 = 0x01;

/// An adapter opened and configured for I2C, known by its handle.
#[derive(Debug)]
pub struct I2CDevice {
    handle: i32,
}

impl View for I2CDevice {
    type V = i32;

    /// The adapter's handle.
    closed spec fn view(&self) -> i32 {
        self.handle
    }
}

/// An I2C operation, by the length of its buffer: a read fills a buffer of
/// that many bytes, a write sends that many bytes.
#[derive(Debug, Clone, Copy, PartialEq, Eq, Structural)]
pub enum I2cOperation {
    Read(usize),
    Write(usize),
}

/// One call into the C library: read into (or write from) the buffer of the
/// operation at `index`, `num_bytes` bytes, on `address` with `flags`.
#[derive(Debug, Clone, Copy, PartialEq, Eq, Structural)]
pub struct I2cRequest {
    pub handle: i32,
    pub address: u16,
    pub flags: u32,
    pub read: bool,
    pub num_bytes: u16,
    pub index: usize,
}

/// The error of a failed I2C transaction: the status of the call that failed.
#[derive(Debug, Clone, Copy, PartialEq, Eq, Structural)]
pub struct I2CError(AardvarkError);

impl View for I2CError {
    type V = i32;

    /// The status code of the failed call.
    closed spec fn view(&self) -> i32 {
        self.0@
    }
}

impl I2CError {
    /// The I2C error that carries `error`.
    pub fn new(error: AardvarkError) -> (e: I2CError)
        ensures
            e@ == error@,
    {
        I2CError(error)
    }

    /// The adapter error that this error carries.
    pub fn error(&self) -> (e: AardvarkError)
        ensures
            e@ == self@,
    {
        self.0
    }

    /// The text that the error displays, the same as its adapter error's.
    pub fn to_string(&self) -> (s: String)
        ensures
            s@ == error_message(self@),
    {
        self.0.to_string()
    }
}

/// The number of bytes the C library is told to move for a buffer of
/// `len` bytes: the length taken modulo 2^16, as the call's count is 16 bits.
pub open spec fn byte_count(len: usize) -> u16 {
    (len % 0x10000) as u16
}

/// The request that runs operation `op`, number `index`, of a transaction.
pub open spec fn request_for(
    handle: i32,
    address: u16,
    flags: u32,
    op: I2cOperation,
    index: usize,
) -> I2cRequest {
    match op {
        I2cOperation::Read(len) => I2cRequest {
            handle,
            address,
            flags,
            read: true,
            num_bytes: byte_count(len),
            index,
        },
        I2cOperation::Write(len) => I2cRequest {
            handle,
            address,
            flags,
            read: false,
            num_bytes: byte_count(len),
            index,
        },
    }
}

/// What a transaction is: where it goes, what it does, and the statuses of
/// the calls made so far, in the order of the operations.
pub struct TransactionView {
    pub handle: i32,
    pub address: u16,
    pub flags: u32,
    pub operations: Seq<I2cOperation>,
    pub statuses: Seq<i32>,
}

/// Every call so far succeeded: none returned a negative status.
pub open spec fn all_succeeded(statuses: Seq<i32>) -> bool {
    forall|i: int| 0 <= i < statuses.len() ==> statuses[i] >= 0
}

/// Calls are made in the order of the operations, one per operation, and
/// none after one that failed: no status but the last is negative.
pub open spec fn runs_in_order(t: TransactionView) -> bool {
    &&& t.statuses.len() <= t.operations.len()
    &&& forall|i: int| 0 <= i < t.statuses.len() - 1 ==> t.statuses[i] >= 0
}

/// A transaction is over when every operation ran or the last call failed.
pub open spec fn is_finished(t: TransactionView) -> bool {
    ||| t.statuses.len() == t.operations.len()
    ||| (t.statuses.len() > 0 && t.statuses.last() < 0)
}

/// A transaction in progress: its operations and the statuses of the calls
/// made so far.
#[derive(Debug)]
pub struct Transaction {
    handle: i32,
    address: u16,
    flags: u32,
    operations: Vec<I2cOperation>,
    statuses: Vec<i32>,
}

impl View for Transaction {
    type V = TransactionView;

    closed spec fn view(&self) -> TransactionView {
        TransactionView {
            handle: self.handle,
            address: self.address,
            flags: self.flags,
            operations: self.operations@,
            statuses: self.statuses@,
        }
    }
}

fn byte_count_of(len: usize) -> (n: u16)
    ensures
        n == byte_count(len),
        n as int == len % 0x10000,
{
    assert((len as u16) == ((len % 0x10000) as u16)) by (bit_vector);
    len as u16
}

impl Transaction {
    #[verifier::type_invariant]
    spec fn well_formed(self) -> bool {
        runs_in_order(self@)
    }

    /// A transaction that has made no call yet.
    pub fn new(handle: i32, address: u16, flags: u32, operations: Vec<I2cOperation>) -> (t:
        Transaction)
        ensures
            t@.handle == handle,
            t@.address == address,
            t@.flags == flags,
            t@.operations == operations@,
            t@.statuses == Seq::<i32>::empty(),
            runs_in_order(t@),
    {
        Transaction { handle, address, flags, operations, statuses: Vec::new() }
    }

    /// The request for the next operation, or `None` when the transaction is
    /// over.
    pub fn next_request(&self) -> (r: Option<I2cRequest>)
        ensures
            runs_in_order(self@),
            r is None <==> is_finished(self@),
            r is None <==> (self@.statuses.len() == self@.operations.len() || (self@.statuses.len()
                > 0 && self@.statuses.last() < 0)),
            r matches Some(q) ==> q.index == self@.statuses.len() && q.index < self@.operations.len(),
            r matches Some(q) ==> q.handle == self@.handle && q.address == self@.address && q.flags
                == self@.flags,
            r matches Some(q) ==> (self@.operations[q.index as int] matches I2cOperation::Read(len)
                ==> q.read && q.num_bytes as int == len % 0x10000),
            r matches Some(q) ==> (self@.operations[q.index as int] matches I2cOperation::Write(len)
                ==> !q.read && q.num_bytes as int == len % 0x10000),
            r matches Some(q) ==> q == request_for(
                self@.handle,
                self@.address,
                self@.flags,
                self@.operations[self@.statuses.len() as int],
                self@.statuses.len() as usize,
            ),
    {
        proof {
            use_type_invariant(self);
        }
        let done = self.statuses.len();
        if done == self.operations.len() {
            return None;
        }
        if done > 0 && self.statuses[done - 1] < 0 {
            return None;
        }
        let op = self.operations[done];
        let q = match op {
            I2cOperation::Read(len) => I2cRequest {
                handle: self.handle,
                address: self.address,
                flags: self.flags,
                read: true,
                num_bytes: byte_count_of(len),
                index: done,
            },
            I2cOperation::Write(len) => I2cRequest {
                handle: self.handle,
                address: self.address,
                flags: self.flags,
                read: false,
                num_bytes: byte_count_of(len),
                index: done,
            },
        };
        Some(q)
    }

    /// Takes the status of the call made for the next operation.
    pub fn record(&mut self, status: i32)
        requires
            !is_finished(old(self)@),
        ensures
            final(self)@ == (TransactionView {
                statuses: old(self)@.statuses.push(status),
                ..old(self)@
            }),
            runs_in_order(final(self)@),
    {
        proof {
            use_type_invariant(&*self);
        }
        let mut statuses: Vec<i32> = Vec::new();
        std::mem::swap(&mut statuses, &mut self.statuses);
        statuses.push(status);
        self.statuses = statuses;
    }

    /// The outcome of a finished transaction: success when every call
    /// succeeded, else the error of the call that failed, which was the last.
    pub fn result(&self) -> (r: Result<(), I2CError>)
        requires
            is_finished(self@),
        ensures
            r is Ok <==> all_succeeded(self@.statuses),
            r is Ok <==> forall|i: int| 0 <= i < self@.statuses.len() ==> self@.statuses[i] >= 0,
            r matches Err(e) ==> e@ == self@.statuses.last() && e@ < 0,
            runs_in_order(self@),
    {
        proof {
            use_type_invariant(self);
        }
        let n = self.statuses.len();
        if n == 0 {
            return Ok(());
        }
        match check_status(self.statuses[n - 1]) {
            Ok(()) => Ok(()),
            Err(e) => Err(I2CError::new(e)),
        }
    }
}

impl I2CDevice {
    /// The device of an adapter opened with `handle`.
    pub fn new(handle: i32) -> (d: I2CDevice)
        ensures
            d@ == handle,
    {
        I2CDevice { handle }
    }

    /// The adapter's handle.
    pub fn handle(&self) -> (h: i32)
        ensures
            h == self@,
    {
        self.handle
    }

    /// A transaction on a 7-bit slave address, sent with no flags.
    pub fn transaction_seven_bit(&self, address: u8, operations: Vec<I2cOperation>) -> (t:
        Transaction)
        ensures
            t@.handle == self@,
            t@.address == address as u16,
            t@.flags == AA_I2C_NO_FLAGS,
            t@.operations == operations@,
            t@.statuses == Seq::<i32>::empty(),
            runs_in_order(t@),
    {
        Transaction::new(self.handle, address as u16, AA_I2C_NO_FLAGS, operations)
    }

    /// A transaction on a 10-bit slave address, sent with the 10-bit flag.
    pub fn transaction_ten_bit(&self, address: u16, operations: Vec<I2cOperation>) -> (t:
        Transaction)
        ensures
            t@.handle == self@,
            t@.address == address,
            t@.flags == AA_I2C_10_BIT_ADDR,
            t@.operations == operations@,
            t@.statuses == Seq::<i32>::empty(),
            runs_in_order(t@),
    {
        Transaction::new(self.handle, address, AA_I2C_10_BIT_ADDR, operations)
    }
}

/// A finished transaction either ran every operation and every call
/// succeeded, or it stopped at its first failed call: every call before the
/// last succeeded and the last one returned a negative status.
pub proof fn lemma_transaction_stops_at_first_failure(t: TransactionView)
    requires
        runs_in_order(t),
        is_finished(t),
    ensures
        all_succeeded(t.statuses) ==> t.statuses.len() == t.operations.len(),
        !all_succeeded(t.statuses) ==> {
            &&& t.statuses.len() > 0
            &&& t.statuses.last() < 0
            &&& all_succeeded(t.statuses.drop_last())
        },
{
    if t.statuses.len() > 0 && t.statuses.last() < 0 {
        assert(!all_succeeded(t.statuses));
    }
}

/// The calls a transaction has made so far, one per recorded status, in
/// the order of the operations.
pub open spec fn requests_made(t: TransactionView) -> Seq<I2cRequest> {
    Seq::new(
        t.statuses.len(),
        |i: int| request_for(t.handle, t.address, t.flags, t.operations[i], i as usize),
    )
}

/// Every call of a transaction made on a device goes to that device's
/// handle, to the transaction's address with its flags, for the operation
/// of its own index.
pub proof fn lemma_requests_use_device_handle(d: I2CDevice, t: TransactionView)
    requires
        t.handle == d@,
        runs_in_order(t),
        t.operations.len() <= usize::MAX,
    ensures
        forall|i: int|
            0 <= i < requests_made(t).len() ==> {
                &&& (#[trigger] requests_made(t)[i]).handle == d@
                &&& requests_made(t)[i].address == t.address
                &&& requests_made(t)[i].flags == t.flags
                &&& requests_made(t)[i].index == i
            },
{
    assert forall|i: int| 0 <= i < requests_made(t).len() implies {
        &&& (#[trigger] requests_made(t)[i]).handle == d@
        &&& requests_made(t)[i].address == t.address
        &&& requests_made(t)[i].flags == t.flags
        &&& requests_made(t)[i].index == i
    } by {
        match t.operations[i] {
            I2cOperation::Read(_) => {},
            I2cOperation::Write(_) => {},
        }
    }
}

/// A transaction on a 7-bit address and one on the same address taken as a
/// 10-bit address, with the same operations and the same statuses returned,
/// make the same calls except for the flags, which are no flags in place of
/// the 10-bit flag, and are finished, and succeed, at the same point.
pub proof fn lemma_seven_bit_is_ten_bit_without_flag(
    handle: i32,
    address: u8,
    operations: Seq<I2cOperation>,
    statuses: Seq<i32>,
)
    requires
        statuses.len() <= operations.len(),
    ensures
        ({
            let seven = TransactionView {
                handle,
                address: address as u16,
                flags: AA_I2C_NO_FLAGS,
                operations,
                statuses,
            };
            let ten = TransactionView {
                handle,
                address: address as u16,
                flags: AA_I2C_10_BIT_ADDR,
                operations,
                statuses,
            };
            &&& requests_made(seven).len() == requests_made(ten).len()
            &&& forall|i: int|
                0 <= i < requests_made(seven).len() ==> #[trigger] requests_made(seven)[i] == (
                I2cRequest { flags: AA_I2C_NO_FLAGS, ..requests_made(ten)[i] })
            &&& (0 <= statuses.len() < operations.len() ==> request_for(
                handle,
                address as u16,
                AA_I2C_NO_FLAGS,
                operations[statuses.len() as int],
                statuses.len() as usize,
            ) == (I2cRequest {
                flags: AA_I2C_NO_FLAGS,
                ..request_for(
                    handle,
                    address as u16,
                    AA_I2C_10_BIT_ADDR,
                    operations[statuses.len() as int],
                    statuses.len() as usize,
                )
            }))
            &&& is_finished(seven) == is_finished(ten)
            &&& runs_in_order(seven) == runs_in_order(ten)
        }),
{
}

/// The byte count of a buffer is its length modulo 2^16: the length itself
/// for every buffer of at most 65535 bytes.
pub proof fn lemma_byte_count_is_length(len: usize)
    ensures
        byte_count(len) as int == len % 0x10000,
        len <= 0xffff ==> byte_count(len) as int == len,
{
}

/// The request for an operation reads for a read and writes for a write,
/// moves the operation's length in bytes (modulo 2^16), and goes to the
/// given handle, address and flags, for the given index.
pub proof fn lemma_request_for_operation(
    handle: i32,
    address: u16,
    flags: u32,
    op: I2cOperation,
    index: usize,
)
    ensures
        ({
            let q = request_for(handle, address, flags, op, index);
            &&& q.handle == handle
            &&& q.address == address
            &&& q.flags == flags
            &&& q.index == index
            &&& op matches I2cOperation::Read(len) ==> q.read && q.num_bytes as int == len % 0x10000
            &&& op matches I2cOperation::Write(len) ==> !q.read && q.num_bytes as int == len
                % 0x10000
            &&& op matches I2cOperation::Read(len) ==> (len <= 0xffff ==> q.num_bytes as int == len)
            &&& op matches I2cOperation::Write(len) ==> (len <= 0xffff ==> q.num_bytes as int
                == len)
        }),
{
}

} // verus!
