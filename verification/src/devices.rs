//! Discovery of attached adapters.
//!
//! The C library reports attached adapters by filling a buffer of port
//! numbers and returning how many it found, or a negative status. A port
//! number with [`AA_PORT_NOT_FREE`] set belongs to an adapter that another
//! program holds open.
use vstd::prelude::*;

use crate::error::{AardvarkError, AardvarkResult};

verus! {

/// Bit that the library sets in a port number whose adapter is in use.
pub const AA_PORT_NOT_FREE: u16 = 0x8000;

/// Number of port numbers the scan asks the library for.
pub const DEVICE_BUFFER_LEN: usize = 16;

/// A port whose adapter no other program holds open.
pub open spec fn port_is_free(port: u16) -> bool {
    port & AA_PORT_NOT_FREE == 0
}

/// The ports of a list whose adapters are free, in their order.
pub open spec fn free_ports(ports: Seq<u16>) -> Seq<u16> {
    ports.filter(|p: u16| port_is_free(p))
}

/// The ports a scan found: the first `count` entries of the buffer, or the
/// whole buffer where the library found more adapters than it could hold.
pub open spec fn scanned_ports(count: i32, buffer: Seq<u16>) -> Seq<u16> {
    if count < buffer.len() {
        buffer.take(count as int)
    } else {
        buffer
    }
}

/// Whether the adapter on `port` is free.
pub fn is_port_free(port: u16) -> (free: bool)
    ensures
        free == port_is_free(port),
        free == (port & 0x8000u16 == 0),
{
    port & AA_PORT_NOT_FREE == 0
}

/// The ports of a scan, from the library's result: the error when the
/// count is negative, else the first `count` entries of the buffer (all of
/// them where `count` exceeds its length).
pub fn find_aardvark_devices(count: i32, buffer: &[u16]) -> (r: AardvarkResult<Vec<u16>>)
    ensures
        count < 0 <==> r is Err,
        r matches Err(e) ==> e@ == count,
        r matches Ok(ports) ==> ports@ == scanned_ports(count, buffer@),
        r matches Ok(ports) ==> ports@.len() == (if count < buffer@.len() {
            count as int
        } else {
            buffer@.len() as int
        }),
        r matches Ok(ports) ==> forall|i: int| 0 <= i < ports@.len() ==> ports@[i] == buffer@[i],
{
    if count < 0 {
        return Err(AardvarkError::new(count));
    }
    let n: usize = if (count as usize) < buffer.len() {
        count as usize
    } else {
        buffer.len()
    };
    let mut ports: Vec<u16> = Vec::new();
    let mut i: usize = 0;
    while i < n
        invariant
            n <= buffer.len(),
            i <= n,
            ports@ == buffer@.take(i as int),
        decreases n - i,
    {
        ports.push(buffer[i]);
        i = i + 1;
        proof {
            assert(ports@ =~= buffer@.take(i as int));
        }
    }
    proof {
        assert(buffer@.take(buffer@.len() as int) =~= buffer@);
    }
    Ok(ports)
}

proof fn lemma_free_ports_step(ports: Seq<u16>, i: int)
    requires
        0 <= i < ports.len(),
    ensures
        free_ports(ports.take(i + 1)) == if port_is_free(ports[i]) {
            free_ports(ports.take(i)).push(ports[i])
        } else {
            free_ports(ports.take(i))
        },
{
    reveal(Seq::filter);
    assert(ports.take(i + 1).drop_last() =~= ports.take(i));
}

/// The ports of `ports` whose adapters are free, in their order.
pub fn unused_devices(ports: &Vec<u16>) -> (free: Vec<u16>)
    ensures
        free@ == free_ports(ports@),
{
    let mut free: Vec<u16> = Vec::new();
    let mut i: usize = 0;
    proof {
        reveal(Seq::filter);
        assert(ports@.take(0) =~= Seq::<u16>::empty());
    }
    while i < ports.len()
        invariant
            i <= ports.len(),
            free@ == free_ports(ports@.take(i as int)),
        decreases ports.len() - i,
    {
        let port = ports[i];
        proof {
            lemma_free_ports_step(ports@, i as int);
        }
        if is_port_free(port) {
            free.push(port);
        }
        i = i + 1;
    }
    proof {
        assert(ports@.take(ports@.len() as int) =~= ports@);
    }
    free
}

/// The free ports of a scan, from the library's result: the error when the
/// count is negative, else the scanned ports whose adapters are free.
pub fn find_unused_aardvark_devices(count: i32, buffer: &[u16]) -> (r: AardvarkResult<Vec<u16>>)
    ensures
        count < 0 <==> r is Err,
        r matches Err(e) ==> e@ == count,
        r matches Ok(ports) ==> ports@ == free_ports(scanned_ports(count, buffer@)),
        r matches Ok(ports) ==> forall|p: u16|
            ports@.contains(p) <==> (p & 0x8000u16 == 0 && exists|i: int|
                0 <= i < buffer@.len() && i < count && buffer@[i] == p),
{
    let ports = find_aardvark_devices(count, buffer)?;
    let free = unused_devices(&ports);
    proof {
        assert forall|p: u16|
            free@.contains(p) <==> (p & 0x8000u16 == 0 && exists|i: int|
                0 <= i < buffer@.len() && i < count && buffer@[i] == p) by {
            lemma_free_ports_exact(ports@, p);
            if exists|i: int| 0 <= i < buffer@.len() && i < count && buffer@[i] == p {
                let i = choose|i: int| 0 <= i < buffer@.len() && i < count && buffer@[i] == p;
                assert(ports@[i] == p);
            }
            if ports@.contains(p) {
                let i = choose|i: int| 0 <= i < ports@.len() && ports@[i] == p;
                assert(buffer@[i] == p);
            }
        }
    }
    Ok(free)
}

/// A port is reported free exactly when the scan found it and no other
/// program holds its adapter; the free ports keep the order of the scan and
/// are never more than the scanned ones.
pub proof fn lemma_free_ports_exact(ports: Seq<u16>, port: u16)
    ensures
        free_ports(ports).contains(port) <==> (ports.contains(port) && port & 0x8000u16 == 0),
        free_ports(ports).len() <= ports.len(),
    decreases ports.len(),
{
    reveal(Seq::filter);
    if ports.len() > 0 {
        lemma_free_ports_exact(ports.drop_last(), port);
        let rest = ports.drop_last();
        assert(ports =~= rest.push(ports.last()));
        if ports.contains(port) && port != ports.last() {
            let k = choose|k: int| 0 <= k < ports.len() && ports[k] == port;
            assert(rest[k] == port);
        }
        if free_ports(rest).contains(port) {
            let k = choose|k: int| 0 <= k < free_ports(rest).len() && free_ports(rest)[k] == port;
            assert(free_ports(ports)[k] == port);
        }
        if port_is_free(ports.last()) {
            assert(free_ports(ports).last() == ports.last());
        }
        if rest.contains(port) {
            let k = choose|k: int| 0 <= k < rest.len() && rest[k] == port;
            assert(ports[k] == port);
        }
    }
}

/// A port counts as free exactly when its busy bit, 0x8000, is clear.
pub proof fn lemma_port_free_iff_busy_bit_clear(port: u16)
    ensures
        port_is_free(port) <==> port & 0x8000u16 == 0,
        port < 0x8000 ==> port_is_free(port),
        port >= 0x8000 ==> !port_is_free(port),
{
    assert(port < 0x8000 ==> port & 0x8000u16 == 0) by (bit_vector);
    assert(port >= 0x8000 ==> port & 0x8000u16 != 0) by (bit_vector);
}

/// The ports of a scan with a nonnegative count are the buffer's first
/// `min(count, buffer length)` entries, in order, none dropped or changed.
pub proof fn lemma_scanned_ports_are_buffer_prefix(count: i32, buffer: Seq<u16>)
    requires
        count >= 0,
    ensures
        scanned_ports(count, buffer).len() == (if count < buffer.len() {
            count as int
        } else {
            buffer.len() as int
        }),
        forall|i: int|
            0 <= i < scanned_ports(count, buffer).len() ==> #[trigger] scanned_ports(
                count,
                buffer,
            )[i] == buffer[i],
{
}

/// Where a list has a free port, the first of its free ports is the port at
/// the least index whose busy bit is clear; where it has none, every port in
/// it has the busy bit set.
pub proof fn lemma_first_free_port(ports: Seq<u16>)
    ensures
        free_ports(ports).len() == 0 ==> forall|j: int|
            0 <= j < ports.len() ==> #[trigger] ports[j] & 0x8000u16 != 0,
        free_ports(ports).len() > 0 ==> exists|k: int|
            0 <= k < ports.len() && ports[k] & 0x8000u16 == 0 && free_ports(ports)[0] == ports[k]
                && forall|j: int| 0 <= j < k ==> #[trigger] ports[j] & 0x8000u16 != 0,
    decreases ports.len(),
{
    reveal(Seq::filter);
    if ports.len() > 0 {
        let rest = ports.drop_last();
        lemma_first_free_port(rest);
        assert forall|j: int| 0 <= j < rest.len() implies #[trigger] rest[j] == ports[j] by {}
        if free_ports(rest).len() > 0 {
            let k = choose|k: int|
                0 <= k < rest.len() && rest[k] & 0x8000u16 == 0 && free_ports(rest)[0] == rest[k]
                    && forall|j: int| 0 <= j < k ==> #[trigger] rest[j] & 0x8000u16 != 0;
            assert(free_ports(ports)[0] == free_ports(rest)[0]);
            assert(ports[k] == rest[k]);
            assert forall|j: int| 0 <= j < k implies #[trigger] ports[j] & 0x8000u16 != 0 by {
                assert(rest[j] == ports[j]);
            }
        } else {
            let k = ports.len() - 1;
            assert forall|j: int| 0 <= j < k implies #[trigger] ports[j] & 0x8000u16 != 0 by {
                assert(rest[j] == ports[j]);
            }
            if ports[k] & 0x8000u16 == 0 {
                assert(free_ports(ports)[0] == ports[k]);
            } else {
                assert forall|j: int| 0 <= j < ports.len() implies #[trigger] ports[j] & 0x8000u16
                    != 0 by {
                    if j < k {
                        assert(rest[j] == ports[j]);
                    }
                }
            }
        }
    }
}

} // verus!
