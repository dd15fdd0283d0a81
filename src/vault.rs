use vstd::prelude::*;

use crate::errors::SealError;

verus! {

/// Length of a module identity (a code measurement), in bytes.
pub const IDENTITY_LEN: usize = 32;

/// Length of the fixed header of a sealed record: magic, identity, payload length.
pub const HEADER_LEN: usize = 44;

/// The four bytes that open every sealed record ("SKV1").
pub open spec fn magic() -> Seq<u8> {
    seq![0x53u8, 0x4bu8, 0x56u8, 0x31u8]
}

/// `n` as eight little-endian bytes.
pub open spec fn u64_le(n: u64) -> Seq<u8> {
    seq![
        (n & 0xff) as u8,
        ((n >> 8u64) & 0xff) as u8,
        ((n >> 16u64) & 0xff) as u8,
        ((n >> 24u64) & 0xff) as u8,
        ((n >> 32u64) & 0xff) as u8,
        ((n >> 40u64) & 0xff) as u8,
        ((n >> 48u64) & 0xff) as u8,
        ((n >> 56u64) & 0xff) as u8,
    ]
}

/// The sealed record of `payload` under identity `id`:
/// magic, identity, payload length (little-endian `u64`), payload.
pub open spec fn sealed_record(id: Seq<u8>, payload: Seq<u8>) -> Seq<u8> {
    magic() + id + u64_le(payload.len() as u64) + payload
}

/// Whether `rec` has the layout of a sealed record: a full header that opens
/// with the magic and declares exactly the number of bytes that follow it.
pub open spec fn well_framed(rec: Seq<u8>) -> bool {
    &&& HEADER_LEN <= rec.len() <= u64::MAX
    &&& rec.subrange(0, 4) == magic()
    &&& rec.subrange(4 + IDENTITY_LEN, HEADER_LEN as int) == u64_le((rec.len() - HEADER_LEN) as u64)
}

/// What unsealing the slot contents `rec` yields under identity `id`.
pub open spec fn unseal_spec(id: Seq<u8>, rec: Option<Seq<u8>>) -> Result<Seq<u8>, SealError> {
    match rec {
        None => Err(SealError::NotFound),
        Some(r) => if !well_framed(r) {
            Err(SealError::Corrupted)
        } else if r.subrange(4, 4 + IDENTITY_LEN) != id {
            Err(SealError::IdentityMismatch)
        } else {
            Ok(r.subrange(HEADER_LEN as int, r.len() as int))
        },
    }
}

/// The contents of a slot, as a sequence when there are any.
pub open spec fn slot_view(rec: Option<&[u8]>) -> Option<Seq<u8>> {
    match rec {
        Some(b) => Some(b@),
        None => None,
    }
}

/// A result that carries bytes, with the bytes as a sequence.
pub open spec fn bytes_result<E>(r: Result<Vec<u8>, E>) -> Result<Seq<u8>, E> {
    match r {
        Ok(v) => Ok(v@),
        Err(e) => Err(e),
    }
}

/// The identity of a protected module; sealed records are bound to it.
pub struct ModuleIdentity {
    measurement: Vec<u8>,
}

impl View for ModuleIdentity {
    type V = Seq<u8>;

    closed spec fn view(&self) -> Seq<u8> {
        self.measurement@
    }
}

impl ModuleIdentity {
    pub open spec fn wf(&self) -> bool {
        self@.len() == IDENTITY_LEN
    }

    /// An identity from its measurement bytes; `None` unless there are exactly
    /// `IDENTITY_LEN` of them.
    pub fn from_bytes(bytes: &[u8]) -> (r: Option<ModuleIdentity>)
        ensures
            r is Some <==> bytes@.len() == IDENTITY_LEN,
            r matches Some(id) ==> id.wf() && id@ == bytes@,
    {
        if bytes.len() == IDENTITY_LEN {
            Some(ModuleIdentity { measurement: copy_range(bytes, 0, bytes.len()) })
        } else {
            None
        }
    }

    /// The measurement bytes.
    pub fn as_bytes(&self) -> (r: &[u8])
        ensures
            r@ == self@,
    {
        self.measurement.as_slice()
    }
}

/// The bytes `b[start..end]` as a new vector.
pub fn copy_range(b: &[u8], start: usize, end: usize) -> (r: Vec<u8>)
    requires
        start <= end <= b@.len(),
    ensures
        r@ == b@.subrange(start as int, end as int),
{
    let mut r: Vec<u8> = Vec::with_capacity(end - start);
    let mut i: usize = start;
    while i < end
        invariant
            start <= i <= end <= b@.len(),
            r@ == b@.subrange(start as int, i as int),
        decreases end - i,
    {
        r.push(b[i]);
        i += 1;
        assert(r@ =~= b@.subrange(start as int, i as int));
    }
    r
}

/// Whether `b[start..start + expected.len()]` equals `expected`.
pub fn bytes_match_at(b: &[u8], start: usize, expected: &[u8]) -> (r: bool)
    requires
        start + expected@.len() <= b@.len(),
    ensures
        r == (b@.subrange(start as int, start + expected@.len()) == expected@),
{
    let bound = b.len();
    let mut i: usize = 0;
    while i < expected.len()
        invariant
            start + expected@.len() <= b@.len(),
            bound == b@.len(),
            0 <= i <= expected@.len(),
            forall|j: int| 0 <= j < i ==> b@[start + j] == expected@[j],
        decreases expected@.len() - i,
    {
        if b[start + i] != expected[i] {
            assert(b@.subrange(start as int, start + expected@.len())[i as int] != expected@[i as int]);
            return false;
        }
        i += 1;
    }
    assert(b@.subrange(start as int, start + expected@.len()) =~= expected@);
    true
}

/// The eight little-endian bytes of `n`.
fn u64_le_bytes(n: u64) -> (r: Vec<u8>)
    ensures
        r@ == u64_le(n),
{
    let r: Vec<u8> = vec![
        (n & 0xff) as u8,
        ((n >> 8u64) & 0xff) as u8,
        ((n >> 16u64) & 0xff) as u8,
        ((n >> 24u64) & 0xff) as u8,
        ((n >> 32u64) & 0xff) as u8,
        ((n >> 40u64) & 0xff) as u8,
        ((n >> 48u64) & 0xff) as u8,
        ((n >> 56u64) & 0xff) as u8,
    ];
    assert(r@ =~= u64_le(n));
    r
}

/// The record magic as bytes.
fn magic_bytes() -> (r: Vec<u8>)
    ensures
        r@ == magic(),
{
    let r: Vec<u8> = vec![0x53u8, 0x4bu8, 0x56u8, 0x31u8];
    assert(r@ =~= magic());
    r
}

/// Seals `payload` under `id` into a record.
pub fn seal(id: &ModuleIdentity, payload: &[u8]) -> (r: Vec<u8>)
    requires
        id.wf(),
        payload@.len() + HEADER_LEN <= usize::MAX,
    ensures
        r@ == sealed_record(id@, payload@),
{
    let mut r = magic_bytes();
    let idb = id.as_bytes();
    let mut i: usize = 0;
    while i < idb.len()
        invariant
            idb@ == id@,
            0 <= i <= idb@.len(),
            r@ == magic() + idb@.subrange(0, i as int),
        decreases idb@.len() - i,
    {
        r.push(idb[i]);
        i += 1;
        assert(r@ =~= magic() + idb@.subrange(0, i as int));
    }
    assert(idb@.subrange(0, idb@.len() as int) =~= idb@);
    let mut len_bytes = u64_le_bytes(payload.len() as u64);
    r.append(&mut len_bytes);
    let mut j: usize = 0;
    while j < payload.len()
        invariant
            0 <= j <= payload@.len(),
            r@ == magic() + id@ + u64_le(payload@.len() as u64) + payload@.subrange(0, j as int),
        decreases payload@.len() - j,
    {
        r.push(payload[j]);
        j += 1;
        assert(r@ =~= magic() + id@ + u64_le(payload@.len() as u64) + payload@.subrange(0, j as int));
    }
    assert(payload@.subrange(0, payload@.len() as int) =~= payload@);
    r
}

/// Unseals the slot contents `rec` under `id`: the payload, or why it cannot
/// be had.
pub fn unseal(id: &ModuleIdentity, rec: Option<&[u8]>) -> (r: Result<Vec<u8>, SealError>)
    requires
        id.wf(),
    ensures
        bytes_result(r) == unseal_spec(id@, slot_view(rec)),
{
    match rec {
        None => Err(SealError::NotFound),
        Some(b) => {
            if b.len() < HEADER_LEN || !bytes_match_at(b, 0, magic_bytes().as_slice()) {
                return Err(SealError::Corrupted);
            }
            let declared = u64_le_bytes((b.len() - HEADER_LEN) as u64);
            if !bytes_match_at(b, 4 + IDENTITY_LEN, declared.as_slice()) {
                return Err(SealError::Corrupted);
            }
            if !bytes_match_at(b, 4, id.as_bytes()) {
                return Err(SealError::IdentityMismatch);
            }
            Ok(copy_range(b, HEADER_LEN, b.len()))
        },
    }
}

/// Layout facts of a sealed record.
proof fn lemma_record_parts(id: Seq<u8>, payload: Seq<u8>)
    requires
        id.len() == IDENTITY_LEN,
        payload.len() + HEADER_LEN <= u64::MAX,
    ensures
        sealed_record(id, payload).len() == HEADER_LEN + payload.len(),
        sealed_record(id, payload).subrange(0, 4) == magic(),
        sealed_record(id, payload).subrange(4, 4 + IDENTITY_LEN) == id,
        sealed_record(id, payload).subrange(4 + IDENTITY_LEN, HEADER_LEN as int) == u64_le(payload.len() as u64),
        sealed_record(id, payload).subrange(HEADER_LEN as int, HEADER_LEN + payload.len()) == payload,
        well_framed(sealed_record(id, payload)),
{
    let r = sealed_record(id, payload);
    assert(r.subrange(0, 4) =~= magic());
    assert(r.subrange(4, 4 + IDENTITY_LEN) =~= id);
    assert(r.subrange(4 + IDENTITY_LEN, HEADER_LEN as int) =~= u64_le(payload.len() as u64));
    assert(r.subrange(HEADER_LEN as int, HEADER_LEN + payload.len()) =~= payload);
    assert((r.len() - HEADER_LEN) as u64 == payload.len() as u64);
}

/// Sealing bytes and then unsealing the record under the same identity gives
/// back exactly those bytes.
pub proof fn lemma_unseal_sealed(id: Seq<u8>, payload: Seq<u8>)
    requires
        id.len() == IDENTITY_LEN,
        payload.len() + HEADER_LEN <= u64::MAX,
    ensures
        unseal_spec(id, Some(sealed_record(id, payload))) == Ok::<Seq<u8>, SealError>(payload),
{
    lemma_record_parts(id, payload);
}

/// A record sealed under one identity does not unseal under another: the
/// attempt reports an identity mismatch and hands out no bytes.
pub proof fn lemma_identity_isolation(sealer: Seq<u8>, opener: Seq<u8>, payload: Seq<u8>)
    requires
        sealer.len() == IDENTITY_LEN,
        opener.len() == IDENTITY_LEN,
        sealer != opener,
        payload.len() + HEADER_LEN <= u64::MAX,
    ensures
        unseal_spec(opener, Some(sealed_record(sealer, payload))) == Err::<Seq<u8>, SealError>(
            SealError::IdentityMismatch,
        ),
{
    lemma_record_parts(sealer, payload);
}

/// Sealed storage with one slot, bound to the identity of the module that
/// holds it. The slot holds the sealed record as it lies on persistent storage.
pub struct SealedKeyVault {
    identity: ModuleIdentity,
    slot: Option<Vec<u8>>,
}

impl SealedKeyVault {
    /// The identity that this vault seals under.
    pub closed spec fn identity_view(&self) -> Seq<u8> {
        self.identity@
    }

    /// The sealed record in the slot, if any.
    pub closed spec fn slot_view(&self) -> Option<Seq<u8>> {
        match self.slot {
            Some(v) => Some(v@),
            None => None,
        }
    }

    pub closed spec fn wf(&self) -> bool {
        self.identity.wf()
    }

    /// A vault whose slot is empty.
    pub fn new(identity: ModuleIdentity) -> (v: SealedKeyVault)
        requires
            identity.wf(),
        ensures
            v.wf(),
            v.identity_view() == identity@,
            v.slot_view() is None,
    {
        SealedKeyVault { identity, slot: None }
    }

    /// A vault whose slot holds `record`, as read back from persistent storage.
    pub fn with_record(identity: ModuleIdentity, record: Option<Vec<u8>>) -> (v: SealedKeyVault)
        requires
            identity.wf(),
        ensures
            v.wf(),
            v.identity_view() == identity@,
            v.slot_view() == (match record {
                Some(b) => Some(b@),
                None => None::<Seq<u8>>,
            }),
    {
        SealedKeyVault { identity, slot: record }
    }

    /// The sealed record in the slot, to be written to persistent storage.
    pub fn record(&self) -> (r: Option<&[u8]>)
        ensures
            slot_view(r) == self.slot_view(),
    {
        match &self.slot {
            Some(v) => Some(v.as_slice()),
            None => None,
        }
    }

    /// Seals `bytes` under the vault's identity into the slot, replacing any
    /// record that was there.
    pub fn create(&mut self, bytes: &[u8])
        requires
            old(self).wf(),
            bytes@.len() + HEADER_LEN <= usize::MAX,
        ensures
            final(self).wf(),
            final(self).identity_view() == old(self).identity_view(),
            final(self).slot_view() == Some(sealed_record(old(self).identity_view(), bytes@)),
    {
        let rec = seal(&self.identity, bytes);
        self.slot = Some(rec);
    }

    /// Unseals the record in the slot.
    pub fn open(&self) -> (r: Result<Vec<u8>, SealError>)
        requires
            self.wf(),
        ensures
            bytes_result(r) == unseal_spec(self.identity_view(), self.slot_view()),
    {
        match &self.slot {
            Some(v) => unseal(&self.identity, Some(v.as_slice())),
            None => unseal(&self.identity, None),
        }
    }
}

} // verus!
