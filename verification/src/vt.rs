//! Sequence identifiers and parameter lists shared by the VT dispatch layers.

use vstd::prelude::*;
use vstd::string::StringSliceAdditionalSpecFns;

verus! {

/// Byte `i` (0 = least significant) of a 64-bit word.
pub open spec fn byte_of(value: u64, i: u64) -> u64 {
    (value >> ((8 * i) as u64)) & 0xff
}

/// The most parameters a VT sequence carries.
pub const MAX_PARAMETER_COUNT: usize = 32;

/// Packs up to eight bytes little-endian into one word, the first byte lowest.
pub open spec fn pack_bytes(bytes: Seq<u8>) -> int
    decreases bytes.len(),
{
    if bytes.len() == 0 {
        0
    } else {
        bytes[0] as int + 256 * pack_bytes(bytes.drop_first())
    }
}

/// A VT sequence identifier: the intermediate and final characters of a
/// sequence packed little-endian into a 64-bit word.
#[derive(Debug, Clone, Copy, PartialEq, Eq)]
pub struct VtId {
    value: u64,
}

impl VtId {
    /// The packed identifier word.
    pub closed spec fn spec_value(self) -> u64 {
        self.value
    }

    pub fn value(&self) -> (r: u64)
        ensures
            r == self.spec_value(),
    {
        self.value
    }

    /// Wraps an already packed identifier word.
    pub fn from_value(value: u64) -> (r: Self)
        ensures
            r.spec_value() == value,
    {
        VtId { value }
    }

    /// Packs an ASCII identifier of at most seven characters.
    pub fn from_ascii(text: &str) -> (r: Self)
        requires
            vstd::string::is_ascii(text),
            text@.len() <= 7,
        ensures
            r.spec_value() as int == pack_bytes(text.spec_bytes()),
    {
        let bytes = text.as_bytes();
        proof {
            vstd::string::is_ascii_spec_bytes(text);
        }
        let n: usize = bytes.len();
        let mut value: u64 = 0;
        let mut i: usize = n;
        while i > 0
            invariant
                n == bytes@.len(),
                n <= 7,
                i <= n,
                value as int == pack_bytes(bytes@.subrange(i as int, n as int)),
                value < pow256((n - i) as nat),
            decreases i,
        {
            i = i - 1;
            let ghost tail = bytes@.subrange(i as int + 1, n as int);
            assert(bytes@.subrange(i as int, n as int).drop_first() =~= tail);
            proof {
                lemma_pow256_step((n - i - 1) as nat);
                lemma_pow256_bound((n - i - 1) as nat);
            }
            value = (bytes[i] as u64) + 256 * value;
        }
        assert(bytes@.subrange(0, n as int) =~= bytes@);
        VtId { value }
    }
}

pub open spec fn pow256(n: nat) -> int
    decreases n,
{
    if n == 0 {
        1
    } else {
        256 * pow256((n - 1) as nat)
    }
}

proof fn lemma_pow256_step(n: nat)
    ensures
        pow256(n + 1) == 256 * pow256(n),
{
}

proof fn lemma_pow256_bound(n: nat)
    requires
        n <= 6,
    ensures
        256 * pow256(n) <= 0x100_0000_0000_0000,
        pow256(n) >= 1,
{
    reveal_with_fuel(pow256, 7);
}

/// Lists the parameters of a VT sequence: each main value may be omitted
/// (`None`) and carries its own, possibly empty, list of sub-parameters.
#[derive(Debug, Clone, PartialEq, Eq)]
pub struct Parameters {
    values: Vec<Option<i32>>,
    sub_params: Vec<Vec<Option<i32>>>,
}

impl Parameters {
    pub closed spec fn spec_values(&self) -> Seq<Option<i32>> {
        self.values@
    }

    /// The sub-parameters of main parameter `index`.
    pub closed spec fn spec_sub_params(&self, index: int) -> Seq<Option<i32>> {
        if 0 <= index < self.sub_params@.len() {
            self.sub_params@[index]@
        } else {
            Seq::empty()
        }
    }

    /// A parameter list without sub-parameters.
    pub fn from_values(values: Vec<Option<i32>>) -> (r: Self)
        ensures
            r.spec_values() == values@,
            forall|i: int| #[trigger] r.spec_sub_params(i) == Seq::<Option<i32>>::empty(),
    {
        let mut sub_params: Vec<Vec<Option<i32>>> = Vec::new();
        let n: usize = values.len();
        let mut i: usize = 0;
        while i < n
            invariant
                i <= n,
                n == values@.len(),
                sub_params@.len() == i,
                forall|k: int| 0 <= k < i ==> (#[trigger] sub_params@[k])@.len() == 0,
            decreases n - i,
        {
            sub_params.push(Vec::new());
            i = i + 1;
        }
        let r = Parameters { values, sub_params };
        assert forall|i: int| #[trigger] r.spec_sub_params(i) == Seq::<Option<i32>>::empty() by {
            if 0 <= i < r.sub_params@.len() {
                assert(r.sub_params@[i]@ =~= Seq::<Option<i32>>::empty());
            }
        }
        r
    }

    /// A parameter list in which main parameter `i` carries `sub_params[i]`.
    pub fn from_values_and_sub_params(
        values: Vec<Option<i32>>,
        sub_params: Vec<Vec<Option<i32>>>,
    ) -> (r: Self)
        requires
            sub_params@.len() == values@.len(),
        ensures
            r.spec_values() == values@,
            forall|i: int| 0 <= i < values@.len() ==> #[trigger] r.spec_sub_params(i) == sub_params@[i]@,
            forall|i: int| !(0 <= i < values@.len()) ==> #[trigger] r.spec_sub_params(i) == Seq::<Option<i32>>::empty(),
    {
        Parameters { values, sub_params }
    }

    /// The main parameters, omitted ones as `None`.
    pub fn values(&self) -> (r: &[Option<i32>])
        ensures
            r@ == self.spec_values(),
    {
        self.values.as_slice()
    }

    /// Number of main parameters.
    pub fn size(&self) -> (r: usize)
        ensures
            r == self.spec_values().len(),
    {
        self.values.len()
    }

    /// Main parameter `index`; `None` when it is omitted or out of range.
    pub fn at(&self, index: usize) -> (r: Option<i32>)
        ensures
            r == spec_at(self.spec_values(), index as int),
    {
        if index < self.values.len() {
            self.values[index]
        } else {
            None
        }
    }

    /// Sub-parameters of main parameter `index`; empty when there are none.
    pub fn sub_params_for(&self, index: usize) -> (r: &[Option<i32>])
        ensures
            r@ == self.spec_sub_params(index as int),
    {
        if index < self.sub_params.len() {
            self.sub_params[index].as_slice()
        } else {
            &[]
        }
    }

    /// A copy holding the same values and sub-parameters.
    pub fn duplicate(&self) -> (r: Self)
        ensures
            r.spec_values() == self.spec_values(),
            forall|i: int| #[trigger] r.spec_sub_params(i) == self.spec_sub_params(i),
    {
        let values = copy_options(self.values.as_slice());
        let mut sub_params: Vec<Vec<Option<i32>>> = Vec::new();
        let n: usize = self.sub_params.len();
        let mut i: usize = 0;
        while i < n
            invariant
                i <= n,
                n == self.sub_params@.len(),
                sub_params@.len() == i,
                forall|k: int| 0 <= k < i ==> (#[trigger] sub_params@[k])@ == self.sub_params@[k]@,
            decreases n - i,
        {
            sub_params.push(copy_options(self.sub_params[i].as_slice()));
            i = i + 1;
        }
        Parameters { values, sub_params }
    }
}

impl Default for Parameters {
    /// No parameters at all.
    fn default() -> (r: Self)
        ensures
            r.spec_values().len() == 0,
            forall|i: int| #[trigger] r.spec_sub_params(i) == Seq::<Option<i32>>::empty(),
    {
        Parameters::from_values(Vec::new())
    }
}


proof fn lemma_pack_bytes_bound(bytes: Seq<u8>)
    requires
        bytes.len() <= 7,
    ensures
        0 <= pack_bytes(bytes) < pow256(bytes.len()),
    decreases bytes.len(),
{
    if bytes.len() > 0 {
        lemma_pack_bytes_bound(bytes.drop_first());
        lemma_pow256_step((bytes.len() - 1) as nat);
    }
}

proof fn lemma_low_byte_split(b: u64, p: u64)
    by (bit_vector)
    requires
        b < 256,
        p < 0x0100_0000_0000_0000,
    ensures
        ((b + 256 * p) as u64) & 0xff == b,
        ((b + 256 * p) as u64) >> 8u64 == p,
{
}

proof fn lemma_shift_bytes(x: u64, i: u64)
    by (bit_vector)
    requires
        i < 7,
    ensures
        (x >> 8u64) >> ((8 * i) as u64) == x >> ((8 * (i + 1)) as u64),
{
}

/// Byte `i` of a packed word is byte `i` of the packed sequence, and zero
/// past its end.
pub proof fn lemma_byte_of_pack(bytes: Seq<u8>, i: u64)
    requires
        bytes.len() <= 7,
        i < 8,
    ensures
        byte_of(pack_bytes(bytes) as u64, i) == if i < bytes.len() {
            bytes[i as int] as u64
        } else {
            0
        },
    decreases bytes.len(),
{
    lemma_pack_bytes_bound(bytes);
    if bytes.len() == 0 {
        assert(byte_of(0u64, i) == 0) by (bit_vector)
            requires
                i < 8,
        ;
    } else {
        let rest = bytes.drop_first();
        lemma_pack_bytes_bound(rest);
        lemma_pow256_bound(rest.len());
        let b = bytes[0] as u64;
        let p = pack_bytes(rest) as u64;
        lemma_low_byte_split(b, p);
        let x = pack_bytes(bytes) as u64;
        assert(x == ((b + 256 * p) as u64));
        if i == 0 {
            assert(byte_of(x, 0) == x & 0xff) by (bit_vector);
        } else {
            lemma_shift_bytes(x, (i - 1) as u64);
            lemma_byte_of_pack(rest, (i - 1) as u64);
            assert(byte_of(x, i) == ((x >> 8u64) >> ((8 * (i - 1)) as u64)) & 0xff);
        }
    }
}

/// An identifier packed from ASCII text without NUL characters, at most
/// seven long, is one that the ABI decoder accepts: `vt_id_from_value`
/// gives back the identifier that `VtId::from_ascii` made.
pub proof fn law_ascii_identifier_decodes(text: &str)
    requires
        vstd::string::is_ascii(text),
        text@.len() <= 7,
        forall|i: int| 0 <= i < text@.len() ==> #[trigger] text@[i] != '\0',
    ensures
        is_valid_identifier(pack_bytes(text.spec_bytes()) as u64),
{
    vstd::string::is_ascii_spec_bytes(text);
    let bytes = text.spec_bytes();
    let x = pack_bytes(bytes) as u64;
    assert forall|i: u64| 0 <= i < 8 implies #[trigger] byte_of(x, i) == if i < bytes.len() {
        bytes[i as int] as u64
    } else {
        0
    } by {
        lemma_byte_of_pack(bytes, i);
    }
    assert forall|i: u64| 0 <= i < 7 implies #[trigger] byte_of(x, i) < 0x80 by {
        if i < bytes.len() {
            assert(bytes[i as int] == text@[i as int] as u8);
        }
    }
    assert forall|i: u64, j: u64| 0 <= i < j < 7 && #[trigger] byte_of(x, i) == 0 implies #[trigger] byte_of(
        x,
        j,
    ) == 0 by {
        if i < bytes.len() {
            assert(bytes[i as int] == text@[i as int] as u8);
            assert(text@[i as int] != '\0');
        }
    }
    assert(byte_of(x, 7) == 0);
}

/// An optional value with its default.
pub open spec fn or_default(value: Option<i32>, default: i32) -> i32 {
    match value {
        Some(v) => v,
        None => default,
    }
}

/// Element `index` of a parameter sequence, `None` out of range.
pub open spec fn spec_at(values: Seq<Option<i32>>, index: int) -> Option<i32> {
    if 0 <= index < values.len() {
        values[index]
    } else {
        None
    }
}

fn copy_options(source: &[Option<i32>]) -> (r: Vec<Option<i32>>)
    ensures
        r@ == source@,
{
    let mut r: Vec<Option<i32>> = Vec::new();
    let n: usize = source.len();
    let mut i: usize = 0;
    while i < n
        invariant
            i <= n,
            n == source@.len(),
            r@ == source@.subrange(0, i as int),
        decreases n - i,
    {
        r.push(source[i]);
        i = i + 1;
    }
    assert(source@.subrange(0, n as int) =~= source@);
    r
}

/// Whether an identifier word decodes to a VT identifier: its top byte is
/// zero, its other seven bytes are ASCII, and once a zero byte occurs every
/// later byte is zero too.
pub open spec fn is_valid_identifier(identifier: u64) -> bool {
    &&& byte_of(identifier, 7) == 0
    &&& forall|i: u64| 0 <= i < 7 ==> #[trigger] byte_of(identifier, i) < 0x80
    &&& forall|i: u64, j: u64| 0 <= i < j < 7 && #[trigger] byte_of(identifier, i) == 0
        ==> #[trigger] byte_of(identifier, j) == 0
}

/// Decodes an identifier word received across the ABI. Fails unless the
/// word holds a zero-terminated ASCII identifier of at most seven bytes.
pub fn vt_id_from_value(identifier: u64) -> (r: Option<VtId>)
    ensures
        r.is_some() == is_valid_identifier(identifier),
        r matches Some(id) ==> id.spec_value() == identifier,
{
    assert((identifier & 0xff00_0000_0000_0000u64 != 0) == (byte_of(identifier, 7) != 0))
        by (bit_vector);
    if identifier & 0xff00_0000_0000_0000u64 != 0 {
        return None;
    }
    let mut i: u64 = 0;
    let mut ended = false;
    while i < 7
        invariant
            i <= 7,
            byte_of(identifier, 7) == 0,
            forall|k: u64| 0 <= k < i ==> #[trigger] byte_of(identifier, k) < 0x80,
            ended <==> exists|k: u64| 0 <= k < i && #[trigger] byte_of(identifier, k) == 0,
            forall|a: u64, b: u64| 0 <= a < b < i && #[trigger] byte_of(identifier, a) == 0
                ==> #[trigger] byte_of(identifier, b) == 0,
        decreases 7 - i,
    {
        let byte: u64 = (identifier >> (8 * i)) & 0xff;
        assert(byte == byte_of(identifier, i));
        if byte >= 0x80 {
            return None;
        }
        if byte == 0 {
            ended = true;
        } else if ended {
            return None;
        }
        i = i + 1;
    }
    Some(VtId::from_value(identifier))
}

} // verus!
