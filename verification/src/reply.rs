//! Reading what the driver wrote back into a buffer.

use vstd::prelude::*;
use vstd::slice::{slice_subrange, slice_to_vec};

use crate::ffi::{OsRotCerts, OsRotLog, OsRotMeasurement, OS_ROT_HASH_SIZE};

verus! {

impl OsRotLog {
    /// Whether `hashes` are the hashes of the first `count` measurements, in
    /// order.
    pub open spec fn are_reported_hashes(&self, hashes: Seq<Vec<u8>>) -> bool {
        &&& hashes.len() == self.count
        &&& forall|i: int| 0 <= i < self.count ==> (#[trigger] hashes[i])@ == self.measurements@[i].hash@
    }

    /// Collect the measurement hashes the driver wrote into this buffer: the
    /// first `count` entries, each as its 48 bytes.
    ///
    /// A count over the buffer's capacity is a driver fault; it is left out.
    pub fn measurement_hashes(&self) -> (r: Vec<Vec<u8>>)
        requires
            self.count <= self.measurements.len(),
        ensures
            self.are_reported_hashes(r@),
            r@.len() == self.count,
            forall|i: int| 0 <= i < self.count ==> (#[trigger] r@[i])@ == self.measurements@[i].hash@,
    {
        let num_items: usize = self.count as usize;
        let mut out: Vec<Vec<u8>> = Vec::new();
        let mut i: usize = 0;
        while i < num_items
            invariant
                i <= num_items,
                num_items == self.count,
                num_items <= self.measurements.len(),
                out@.len() == i,
                forall|j: int| 0 <= j < i ==> (#[trigger] out@[j])@ == self.measurements@[j].hash@,
            decreases num_items - i,
        {
            let hash: Vec<u8> = slice_to_vec(self.measurements[i].hash.as_slice());
            out.push(hash);
            i = i + 1;
        }
        out
    }
}

/// Hashes that are the reported ones are, byte for byte, the first `count`
/// measurements as the driver wrote them: as many as the count, the `i`-th
/// holding the 48 bytes of slot `i` in their order.
pub proof fn lemma_reported_hashes_are_slots(log: OsRotLog, hashes: Seq<Vec<u8>>)
    requires
        log.are_reported_hashes(hashes),
    ensures
        hashes.len() == log.count,
        forall|i: int, j: int|
            0 <= i < log.count && 0 <= j < OS_ROT_HASH_SIZE ==> #[trigger] hashes[i]@[j]
                == log.measurements@[i].hash[j] && hashes[i]@.len() == OS_ROT_HASH_SIZE,
{
    assert forall|i: int, j: int|
        0 <= i < log.count && 0 <= j < OS_ROT_HASH_SIZE implies #[trigger] hashes[i]@[j]
            == log.measurements@[i].hash[j] && hashes[i]@.len() == OS_ROT_HASH_SIZE by {
        assert(hashes[i]@ == log.measurements@[i].hash@);
    }
}

/// The bytes of a run of measurements as they lie in the driver's buffer:
/// each hash in turn, in slot order.
pub open spec fn hash_bytes(ms: Seq<OsRotMeasurement>) -> Seq<u8> {
    ms.map_values(|m: OsRotMeasurement| m.hash@).flatten()
}

/// One more measurement appends its hash to the bytes.
proof fn lemma_hash_bytes_push(ms: Seq<OsRotMeasurement>, m: OsRotMeasurement)
    ensures
        hash_bytes(ms.push(m)) == hash_bytes(ms) + m.hash@,
{
    assert(ms.push(m).map_values(|m: OsRotMeasurement| m.hash@) =~= ms.map_values(
        |m: OsRotMeasurement| m.hash@,
    ).push(m.hash@));
    ms.map_values(|m: OsRotMeasurement| m.hash@).lemma_flatten_push(m.hash@);
}

/// The bytes of `n` measurements are `48 * n` long.
pub proof fn lemma_hash_bytes_len(ms: Seq<OsRotMeasurement>)
    ensures
        hash_bytes(ms).len() == OS_ROT_HASH_SIZE * ms.len(),
    decreases ms.len(),
{
    if ms.len() > 0 {
        lemma_hash_bytes_len(ms.drop_last());
        lemma_hash_bytes_push(ms.drop_last(), ms.last());
        assert(ms.drop_last().push(ms.last()) =~= ms);
    } else {
        assert(ms.map_values(|m: OsRotMeasurement| m.hash@) =~= Seq::<Seq<u8>>::empty());
    }
}

/// Two runs of measurements of the same length with the same bytes are the
/// same run: the driver's bytes of a log decode in one way only.
pub proof fn lemma_hash_bytes_injective(a: Seq<OsRotMeasurement>, b: Seq<OsRotMeasurement>)
    requires
        a.len() == b.len(),
        hash_bytes(a) == hash_bytes(b),
    ensures
        forall|i: int| 0 <= i < a.len() ==> (#[trigger] a[i]).hash@ == b[i].hash@,
    decreases a.len(),
{
    if a.len() > 0 {
        let a0 = a.drop_last();
        let b0 = b.drop_last();
        lemma_hash_bytes_push(a0, a.last());
        lemma_hash_bytes_push(b0, b.last());
        assert(a0.push(a.last()) =~= a);
        assert(b0.push(b.last()) =~= b);
        lemma_hash_bytes_len(a0);
        lemma_hash_bytes_len(b0);
        let n = hash_bytes(a0).len();
        assert(hash_bytes(a0) =~= hash_bytes(a).subrange(0, n as int));
        assert(hash_bytes(b0) =~= hash_bytes(b).subrange(0, n as int));
        assert(a.last().hash@ =~= hash_bytes(a).subrange(n as int, hash_bytes(a).len() as int));
        assert(b.last().hash@ =~= hash_bytes(b).subrange(n as int, hash_bytes(b).len() as int));
        lemma_hash_bytes_injective(a0, b0);
        assert forall|i: int| 0 <= i < a.len() implies (#[trigger] a[i]).hash@ == b[i].hash@ by {
            if i < a.len() - 1 {
                assert(a[i] == a0[i]);
                assert(b[i] == b0[i]);
            }
        }
    }
}

impl OsRotLog {
    /// The trailing measurements as the bytes the driver's buffer holds:
    /// each hash in turn, in slot order.
    pub fn tail_bytes(&self) -> (r: Vec<u8>)
        ensures
            r@ == hash_bytes(self.measurements@),
    {
        let n: usize = self.measurements.len();
        let mut out: Vec<u8> = Vec::new();
        let mut i: usize = 0;
        proof {
            assert(self.measurements@.take(0).map_values(|m: OsRotMeasurement| m.hash@)
                =~= Seq::<Seq<u8>>::empty());
        }
        while i < n
            invariant
                i <= n,
                n == self.measurements.len(),
                out@ == hash_bytes(self.measurements@.take(i as int)),
            decreases n - i,
        {
            let mut hash: Vec<u8> = slice_to_vec(self.measurements[i].hash.as_slice());
            proof {
                lemma_hash_bytes_push(self.measurements@.take(i as int), self.measurements@[i as int]);
                assert(self.measurements@.take(i as int).push(self.measurements@[i as int])
                    =~= self.measurements@.take(i + 1));
            }
            out.append(&mut hash);
            i = i + 1;
        }
        proof {
            assert(self.measurements@.take(n as int) =~= self.measurements@);
        }
        out
    }

    /// Load the trailing measurements from the bytes of the driver's buffer,
    /// `48` bytes to a slot in slot order; the count is left as it is.
    pub fn set_tail_bytes(&mut self, bytes: &[u8])
        requires
            bytes@.len() == OS_ROT_HASH_SIZE * old(self).measurements.len(),
        ensures
            final(self).count == old(self).count,
            final(self).measurements.len() == old(self).measurements.len(),
            hash_bytes(final(self).measurements@) == bytes@,
    {
        let n: usize = self.measurements.len();
        let len: usize = bytes.len();
        let mut slots: Vec<OsRotMeasurement> = Vec::new();
        let mut i: usize = 0;
        proof {
            assert(slots@.map_values(|m: OsRotMeasurement| m.hash@) =~= Seq::<Seq<u8>>::empty());
            assert(bytes@.subrange(0, 0) =~= Seq::<u8>::empty());
        }
        while i < n
            invariant
                i <= n,
                bytes@.len() == OS_ROT_HASH_SIZE * n,
                len == bytes@.len(),
                slots@.len() == i,
                hash_bytes(slots@) == bytes@.subrange(0, OS_ROT_HASH_SIZE * i),
            decreases n - i,
        {
            proof {
                assert(OS_ROT_HASH_SIZE * i + OS_ROT_HASH_SIZE <= OS_ROT_HASH_SIZE * n) by (nonlinear_arith)
                    requires
                        i < n,
                ;
            }
            let base: usize = OS_ROT_HASH_SIZE * i;
            let mut hash = [0u8; 48];
            let mut j: usize = 0;
            while j < OS_ROT_HASH_SIZE
                invariant
                    j <= OS_ROT_HASH_SIZE,
                    base + OS_ROT_HASH_SIZE <= bytes@.len(),
                    len == bytes@.len(),
                    forall|k: int| 0 <= k < j ==> #[trigger] hash@[k] == bytes@[base + k],
                decreases OS_ROT_HASH_SIZE - j,
            {
                hash[j] = bytes[base + j];
                j = j + 1;
            }
            let slot = OsRotMeasurement { hash };
            proof {
                lemma_hash_bytes_push(slots@, slot);
                assert(hash@ =~= bytes@.subrange(base as int, base + OS_ROT_HASH_SIZE));
                assert(bytes@.subrange(0, base as int) + bytes@.subrange(base as int, base + OS_ROT_HASH_SIZE)
                    =~= bytes@.subrange(0, OS_ROT_HASH_SIZE * (i + 1)));
            }
            slots.push(slot);
            i = i + 1;
        }
        proof {
            assert(bytes@.subrange(0, OS_ROT_HASH_SIZE * n) =~= bytes@);
        }
        self.measurements = slots;
    }
}

impl OsRotCerts {
    /// The trailing chain as the bytes the driver's buffer holds.
    pub fn tail_bytes(&self) -> (r: Vec<u8>)
        ensures
            r@ == self.chain@,
    {
        slice_to_vec(self.chain.as_slice())
    }

    /// Load the trailing chain from the bytes of the driver's buffer; the
    /// size is left as it is.
    pub fn set_tail_bytes(&mut self, bytes: &[u8])
        requires
            bytes@.len() == old(self).chain.len(),
        ensures
            final(self).chain_size == old(self).chain_size,
            final(self).chain@ == bytes@,
    {
        self.chain = slice_to_vec(bytes);
    }

    /// The first `chain_size` bytes of the chain.
    pub open spec fn reported_chain(&self) -> Seq<u8> {
        self.chain@.take(self.chain_size as int)
    }

    /// Copy out the certificate chain bytes the driver wrote into this
    /// buffer: its first `chain_size` bytes.
    ///
    /// A size over the buffer's capacity is a driver fault; it is left out.
    pub fn chain_bytes(&self) -> (r: Vec<u8>)
        requires
            self.chain_size <= self.chain.len(),
        ensures
            r@ == self.reported_chain(),
            r@ == self.chain@.take(self.chain_size as int),
            r@.len() == self.chain_size,
            forall|i: int| 0 <= i < self.chain_size ==> #[trigger] r@[i] == self.chain@[i],
    {
        let num_items: usize = self.chain_size as usize;
        slice_to_vec(slice_subrange(self.chain.as_slice(), 0, num_items))
    }
}

} // verus!
