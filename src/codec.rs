use vstd::prelude::*;

use crate::errors::DecodeError;

verus! {

/// Length of the RSA-3072 modulus, and of one ciphertext block, in bytes.
pub const KEY_SIZE: usize = 384;

/// Length of the RSA-3072 public exponent, in bytes.
pub const PUB_EXP_SIZE: usize = 4;

/// Length of each CRT component (p, q, dmp1, dmq1, iqmp), in bytes.
pub const HALF_KEY_SIZE: usize = 192;

#[verifier::external_type_specification]
#[verifier::external_body]
pub struct ExJsonError(serde_json::Error);

/// What serde_json reads from `text` as a JSON object whose values are arrays
/// of bytes: its members as (name, bytes) pairs, or `None` where `text` is not
/// such an object.
pub uninterp spec fn json_byte_fields(text: Seq<u8>) -> Option<Seq<(Seq<char>, Seq<u8>)>>;

/// Relies on serde_json::from_slice into a `BTreeMap<String, Vec<u8>>`: it
/// parses `text` as a JSON object of byte arrays, and fails otherwise. The
/// members come out in the map's key order, so the result depends on `text`
/// alone.
#[verifier::external_body]
fn parse_byte_fields(text: &[u8]) -> (r: Result<Vec<(String, Vec<u8>)>, serde_json::Error>)
    ensures
        r is Ok <==> json_byte_fields(text@) is Some,
        r matches Ok(v) ==> v.deep_view() == json_byte_fields(text@).unwrap(),
{
    serde_json::from_slice::<std::collections::BTreeMap<String, Vec<u8>>>(text).map(
        |m| m.into_iter().collect(),
    )
}

/// The bytes of the first member of `fields` named `name`.
pub open spec fn field_value(fields: Seq<(Seq<char>, Seq<u8>)>, name: Seq<char>) -> Option<Seq<u8>>
    decreases fields.len(),
{
    if fields.len() == 0 {
        None
    } else if fields[0].0 == name {
        Some(fields[0].1)
    } else {
        field_value(fields.drop_first(), name)
    }
}

/// The bytes of the member named `name` when it has exactly `len` of them.
pub open spec fn sized_field(fields: Seq<(Seq<char>, Seq<u8>)>, name: Seq<char>, len: nat) -> Option<Seq<u8>> {
    match field_value(fields, name) {
        Some(b) => if b.len() == len { Some(b) } else { None },
        None => None,
    }
}

/// The components of an RSA-3072 key pair, each as the byte string that the
/// key encoding holds for it.
pub struct KeyPairView {
    pub n: Seq<u8>,
    pub d: Seq<u8>,
    pub e: Seq<u8>,
    pub p: Seq<u8>,
    pub q: Seq<u8>,
    pub dmp1: Seq<u8>,
    pub dmq1: Seq<u8>,
    pub iqmp: Seq<u8>,
}

/// The key pair that the members `fields` describe, when each component is
/// present with its length.
pub open spec fn key_pair_of_fields(fields: Seq<(Seq<char>, Seq<u8>)>) -> Option<KeyPairView> {
    match (
        sized_field(fields, "n"@, KEY_SIZE as nat),
        sized_field(fields, "d"@, KEY_SIZE as nat),
        sized_field(fields, "e"@, PUB_EXP_SIZE as nat),
        sized_field(fields, "p"@, HALF_KEY_SIZE as nat),
        sized_field(fields, "q"@, HALF_KEY_SIZE as nat),
        sized_field(fields, "dmp1"@, HALF_KEY_SIZE as nat),
        sized_field(fields, "dmq1"@, HALF_KEY_SIZE as nat),
        sized_field(fields, "iqmp"@, HALF_KEY_SIZE as nat),
    ) {
        (Some(n), Some(d), Some(e), Some(p), Some(q), Some(dmp1), Some(dmq1), Some(iqmp)) => Some(
            KeyPairView { n, d, e, p, q, dmp1, dmq1, iqmp },
        ),
        _ => None,
    }
}

/// The key pair encoded in the text `text`, if it decodes.
pub open spec fn key_pair_of_text(text: Seq<u8>) -> Option<KeyPairView> {
    match json_byte_fields(text) {
        Some(fields) => key_pair_of_fields(fields),
        None => None,
    }
}

/// An RSA-3072 key pair: modulus, private and public exponents, and the CRT
/// components.
pub struct KeyPairMaterial {
    n: Vec<u8>,
    d: Vec<u8>,
    e: Vec<u8>,
    p: Vec<u8>,
    q: Vec<u8>,
    dmp1: Vec<u8>,
    dmq1: Vec<u8>,
    iqmp: Vec<u8>,
}

impl View for KeyPairMaterial {
    type V = KeyPairView;

    closed spec fn view(&self) -> KeyPairView {
        KeyPairView {
            n: self.n@,
            d: self.d@,
            e: self.e@,
            p: self.p@,
            q: self.q@,
            dmp1: self.dmp1@,
            dmq1: self.dmq1@,
            iqmp: self.iqmp@,
        }
    }
}

impl KeyPairMaterial {
    /// Every component has its fixed length.
    pub open spec fn wf(&self) -> bool {
        &&& self@.n.len() == KEY_SIZE
        &&& self@.d.len() == KEY_SIZE
        &&& self@.e.len() == PUB_EXP_SIZE
        &&& self@.p.len() == HALF_KEY_SIZE
        &&& self@.q.len() == HALF_KEY_SIZE
        &&& self@.dmp1.len() == HALF_KEY_SIZE
        &&& self@.dmq1.len() == HALF_KEY_SIZE
        &&& self@.iqmp.len() == HALF_KEY_SIZE
    }

    /// The size of one ciphertext block under this key: the modulus length.
    pub fn block_size(&self) -> (r: usize)
        requires
            self.wf(),
        ensures
            r == self@.n.len(),
            r == KEY_SIZE,
    {
        self.n.len()
    }

    pub fn modulus(&self) -> (r: &[u8])
        ensures
            r@ == self@.n,
    {
        self.n.as_slice()
    }

    pub fn private_exponent(&self) -> (r: &[u8])
        ensures
            r@ == self@.d,
    {
        self.d.as_slice()
    }

    pub fn public_exponent(&self) -> (r: &[u8])
        ensures
            r@ == self@.e,
    {
        self.e.as_slice()
    }

    pub fn prime_p(&self) -> (r: &[u8])
        ensures
            r@ == self@.p,
    {
        self.p.as_slice()
    }

    pub fn prime_q(&self) -> (r: &[u8])
        ensures
            r@ == self@.q,
    {
        self.q.as_slice()
    }

    pub fn dmp1(&self) -> (r: &[u8])
        ensures
            r@ == self@.dmp1,
    {
        self.dmp1.as_slice()
    }

    pub fn dmq1(&self) -> (r: &[u8])
        ensures
            r@ == self@.dmq1,
    {
        self.dmq1.as_slice()
    }

    pub fn iqmp(&self) -> (r: &[u8])
        ensures
            r@ == self@.iqmp,
    {
        self.iqmp.as_slice()
    }
}

/// The bytes of the first member of `fields` named `name`.
pub fn find_field<'a>(fields: &'a Vec<(String, Vec<u8>)>, name: &str) -> (r: Option<&'a Vec<u8>>)
    ensures
        match r {
            Some(v) => field_value(fields.deep_view(), name@) == Some(v@),
            None => field_value(fields.deep_view(), name@) is None,
        },
{
    let ghost all = fields.deep_view();
    let target = String::from_str(name);
    let mut i: usize = 0;
    assert(all.subrange(0, all.len() as int) =~= all);
    while i < fields.len()
        invariant
            all == fields.deep_view(),
            all.len() == fields@.len(),
            target@ == name@,
            0 <= i <= fields@.len(),
            field_value(all, name@) == field_value(all.subrange(i as int, all.len() as int), name@),
        decreases fields@.len() - i,
    {
        let ghost rest = all.subrange(i as int, all.len() as int);
        assert(rest[0] == all[i as int]);
        assert(all[i as int] == fields@[i as int].deep_view());
        assert(rest.drop_first() =~= all.subrange(i + 1, all.len() as int));
        if fields[i].0 == target {
            return Some(&fields[i].1);
        }
        i += 1;
    }
    assert(all.subrange(i as int, all.len() as int).len() == 0);
    None
}

/// The member named `name` when it has exactly `len` bytes, copied out.
fn take_sized_field(fields: &Vec<(String, Vec<u8>)>, name: &str, len: usize) -> (r: Option<Vec<u8>>)
    ensures
        match r {
            Some(v) => sized_field(fields.deep_view(), name@, len as nat) == Some(v@),
            None => sized_field(fields.deep_view(), name@, len as nat) is None,
        },
{
    match find_field(fields, name) {
        Some(v) => if v.len() == len {
            Some(v.clone())
        } else {
            None
        },
        None => None,
    }
}

/// Builds a key pair from the members of a decoded key object; fails where a
/// component is missing or has the wrong length.
pub fn key_pair_from_fields(fields: &Vec<(String, Vec<u8>)>) -> (r: Result<KeyPairMaterial, DecodeError>)
    ensures
        match r {
            Ok(k) => k.wf() && key_pair_of_fields(fields.deep_view()) == Some(k@),
            Err(e) => e == DecodeError::Malformed && key_pair_of_fields(fields.deep_view()) is None,
        },
{
    let n = take_sized_field(fields, "n", KEY_SIZE);
    let d = take_sized_field(fields, "d", KEY_SIZE);
    let e = take_sized_field(fields, "e", PUB_EXP_SIZE);
    let p = take_sized_field(fields, "p", HALF_KEY_SIZE);
    let q = take_sized_field(fields, "q", HALF_KEY_SIZE);
    let dmp1 = take_sized_field(fields, "dmp1", HALF_KEY_SIZE);
    let dmq1 = take_sized_field(fields, "dmq1", HALF_KEY_SIZE);
    let iqmp = take_sized_field(fields, "iqmp", HALF_KEY_SIZE);
    match (n, d, e, p, q, dmp1, dmq1, iqmp) {
        (Some(n), Some(d), Some(e), Some(p), Some(q), Some(dmp1), Some(dmq1), Some(iqmp)) => {
            let k = KeyPairMaterial { n, d, e, p, q, dmp1, dmq1, iqmp };
            Ok(k)
        },
        _ => Err(DecodeError::Malformed),
    }
}

/// Decodes the textual key encoding `text` into a key pair.
pub fn parse(text: &[u8]) -> (r: Result<KeyPairMaterial, DecodeError>)
    ensures
        match r {
            Ok(k) => k.wf() && key_pair_of_text(text@) == Some(k@),
            Err(e) => e == DecodeError::Malformed && key_pair_of_text(text@) is None,
        },
{
    match parse_byte_fields(text) {
        Ok(fields) => key_pair_from_fields(&fields),
        Err(_) => Err(DecodeError::Malformed),
    }
}

} // verus!
