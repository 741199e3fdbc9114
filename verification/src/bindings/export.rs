//! Named primitives exported to the interpreter, and the table of exports.
use vstd::prelude::*;
use vstd::utf8::{valid_utf8, decode_utf8, encode_utf8, encode_scalar, has_width_1_encoding};

verus! {

broadcast use vstd::utf8::encode_utf8_decode_utf8, vstd::utf8::encode_utf8_valid_utf8;

/// Decodes UTF-8 bytes into a string (`String::from_utf8`); `None` when the
/// bytes are not valid UTF-8.
#[verifier::external_body]
fn string_from_utf8(bytes: Vec<u8>) -> (result: Option<String>)
    ensures
        result is Some <==> valid_utf8(bytes@),
        result matches Some(s) ==> s@ == decode_utf8(bytes@),
{
    String::from_utf8(bytes).ok()
}

/// The bytes of a string in UTF-8 (`str::as_bytes`).
fn utf8_bytes(s: &str) -> (result: Vec<u8>)
    ensures
        result@ == encode_utf8(s@),
{
    vstd::slice::slice_to_vec(s.as_bytes())
}

/// The position of the first zero byte, or the length when there is none.
pub open spec fn first_nul(bytes: Seq<u8>) -> int
    decreases bytes.len(),
{
    if bytes.len() == 0 {
        0
    } else if bytes[0] == 0 {
        0
    } else {
        1 + first_nul(bytes.skip(1))
    }
}

proof fn lemma_first_nul(bytes: Seq<u8>)
    ensures
        0 <= first_nul(bytes) <= bytes.len(),
        forall|i: int| 0 <= i < first_nul(bytes) ==> bytes[i] != 0,
        first_nul(bytes) < bytes.len() ==> bytes[first_nul(bytes)] == 0,
    decreases bytes.len(),
{
    if bytes.len() > 0 && bytes[0] != 0 {
        lemma_first_nul(bytes.skip(1));
        assert forall|i: int| 0 <= i < first_nul(bytes) implies bytes[i] != 0 by {
            if i > 0 {
                assert(bytes.skip(1)[i - 1] == bytes[i]);
            }
        }
    }
}

/// One entry of the interpreter's table of named primitives: a plugin name,
/// a primitive name (the bytes of a C string) and the primitive's address.
/// A missing name or a zero address stands for a null pointer.
#[allow(non_camel_case_types)]
pub struct sqExport {
    plugin_name: Option<String>,
    primitive_name: Option<Vec<u8>>,
    primitive_address: usize,
}

impl sqExport {
    pub closed spec fn plugin_name_view(&self) -> Option<Seq<char>> {
        match self.plugin_name {
            Some(s) => Some(s@),
            None => None,
        }
    }

    pub closed spec fn primitive_name_view(&self) -> Option<Seq<u8>> {
        match self.primitive_name {
            Some(b) => Some(b@),
            None => None,
        }
    }

    pub closed spec fn address_view(&self) -> usize {
        self.primitive_address
    }

    /// All three pointers are set.
    pub open spec fn valid(&self) -> bool {
        &&& self.plugin_name_view() is Some
        &&& self.primitive_name_view() is Some
        &&& self.address_view() != 0
    }

    /// The primitive name may be read back as text.
    pub open spec fn readable(&self) -> bool {
        self.primitive_name_view() matches Some(b) ==> valid_utf8(b)
    }

    /// The plugin name as text, empty when it is not set.
    pub open spec fn plugin_name_text(&self) -> Seq<char> {
        match self.plugin_name_view() {
            Some(s) => s,
            None => Seq::empty(),
        }
    }

    /// The primitive name as text, empty when it is not set.
    pub open spec fn primitive_name_text(&self) -> Seq<char> {
        match self.primitive_name_view() {
            Some(b) => decode_utf8(b),
            None => Seq::empty(),
        }
    }

    /// An entry with every pointer null.
    pub fn new() -> (result: Self)
        ensures
            result.plugin_name_view() is None,
            result.primitive_name_view() is None,
            result.address_view() == 0,
    {
        sqExport { plugin_name: None, primitive_name: None, primitive_address: 0 }
    }

    /// Whether the plugin name pointer is null.
    pub fn plugin_name_is_null(&self) -> (result: bool)
        ensures
            result == (self.plugin_name_view() is None),
    {
        self.plugin_name.is_none()
    }

    /// Whether the primitive name pointer is null.
    pub fn primitive_name_is_null(&self) -> (result: bool)
        ensures
            result == (self.primitive_name_view() is None),
    {
        self.primitive_name.is_none()
    }

    /// The plugin name; empty when it is not set.
    pub fn plugin_name(&self) -> (result: String)
        ensures
            result@ == self.plugin_name_text(),
    {
        match &self.plugin_name {
            Some(name) => name.clone(),
            None => String::new(),
        }
    }

    /// Assigns the plugin name, which may be assigned only once and may not
    /// hold a zero character.
    pub fn set_plugin_name(&mut self, name: String)
        requires
            old(self).plugin_name_view() is None,
            !name@.contains('\0'),
        ensures
            final(self).plugin_name_view() == Some(name@),
            final(self).primitive_name_view() == old(self).primitive_name_view(),
            final(self).address_view() == old(self).address_view(),
    {
        self.plugin_name = Some(name);
    }

    /// The primitive name; empty when it is not set.
    pub fn primitive_name(&self) -> (result: String)
        requires
            self.readable(),
        ensures
            result@ == self.primitive_name_text(),
    {
        match &self.primitive_name {
            Some(bytes) => {
                let decoded = string_from_utf8(bytes.clone());
                match decoded {
                    Some(s) => s,
                    None => String::new(),
                }
            },
            None => String::new(),
        }
    }

    /// Assigns the primitive name from text, which may be assigned only once
    /// and may not hold a zero character.
    pub fn set_primitive_name(&mut self, name: String)
        requires
            old(self).primitive_name_view() is None,
            !name@.contains('\0'),
        ensures
            final(self).primitive_name_view() == Some(encode_utf8(name@)),
            final(self).plugin_name_view() == old(self).plugin_name_view(),
            final(self).address_view() == old(self).address_view(),
    {
        self.primitive_name = Some(utf8_bytes(name.as_str()));
    }

    /// Assigns the primitive name from the bytes of a C string: the name is
    /// what comes before the first zero byte, which must be present.
    pub fn set_primitive_name_bytes(&mut self, name: Vec<u8>)
        requires
            old(self).primitive_name_view() is None,
            name@.contains(0u8),
        ensures
            final(self).primitive_name_view() == Some(name@.take(first_nul(name@))),
            final(self).plugin_name_view() == old(self).plugin_name_view(),
            final(self).address_view() == old(self).address_view(),
    {
        let mut k: usize = 0;
        let mut prefix: Vec<u8> = Vec::new();
        proof {
            lemma_first_nul(name@);
        }
        while k < name.len() && name[k] != 0
            invariant
                k <= first_nul(name@),
                first_nul(name@) <= name@.len(),
                forall|i: int| 0 <= i < first_nul(name@) ==> name@[i] != 0,
                first_nul(name@) < name@.len() ==> name@[first_nul(name@)] == 0,
                prefix@ == name@.take(k as int),
            decreases name@.len() - k,
        {
            prefix.push(name[k]);
            k = k + 1;
            assert(prefix@ =~= name@.take(k as int));
        }
        self.primitive_name = Some(prefix);
    }

    /// The primitive's address; zero when it is not set.
    pub fn primitive_address(&self) -> (result: usize)
        ensures
            result == self.address_view(),
    {
        self.primitive_address
    }

    /// Assigns the primitive's address.
    pub fn set_primitive_address(&mut self, address: usize)
        ensures
            final(self).address_view() == address,
            final(self).plugin_name_view() == old(self).plugin_name_view(),
            final(self).primitive_name_view() == old(self).primitive_name_view(),
    {
        self.primitive_address = address;
    }

    /// Whether all three pointers are set.
    pub fn is_valid(&self) -> (result: bool)
        ensures
            result == self.valid(),
    {
        if self.primitive_name.is_none() {
            return false;
        }
        if self.plugin_name.is_none() {
            return false;
        }
        if self.primitive_address == 0 {
            return false;
        }
        true
    }
}


/// A named primitive that the interpreter can look up: the Rust side of one
/// entry of the export table.
pub struct NamedPrimitive {
    export: sqExport,
}

/// The number of entries at the front of `exports` that are valid: the
/// length of a table that ends at its first invalid entry.
pub open spec fn valid_prefix_len(exports: Seq<NamedPrimitive>) -> nat
    decreases exports.len(),
{
    if exports.len() == 0 {
        0
    } else if !exports[0].view().valid() {
        0
    } else {
        1 + valid_prefix_len(exports.skip(1))
    }
}

pub proof fn lemma_valid_prefix_len(exports: Seq<NamedPrimitive>)
    ensures
        valid_prefix_len(exports) <= exports.len(),
        forall|i: int| 0 <= i < valid_prefix_len(exports) ==> (#[trigger] exports[i]).view().valid(),
        valid_prefix_len(exports) < exports.len() ==> !exports[valid_prefix_len(exports) as int].view().valid(),
    decreases exports.len(),
{
    if exports.len() > 0 && exports[0].view().valid() {
        lemma_valid_prefix_len(exports.skip(1));
        assert forall|i: int| 0 <= i < valid_prefix_len(exports) implies (#[trigger] exports[i]).view().valid() by {
            if i > 0 {
                assert(exports.skip(1)[i - 1] == exports[i]);
            }
        }
        if valid_prefix_len(exports) < exports.len() {
            assert(exports.skip(1)[valid_prefix_len(exports) - 1] == exports[valid_prefix_len(exports) as int]);
        }
    }
}

impl View for NamedPrimitive {
    type V = sqExport;

    closed spec fn view(&self) -> sqExport {
        self.export
    }
}

impl NamedPrimitive {
    /// A primitive with no names and no address.
    pub fn new() -> (result: Self)
        ensures
            result@.plugin_name_view() is None,
            result@.primitive_name_view() is None,
            result@.address_view() == 0,
    {
        NamedPrimitive { export: sqExport::new() }
    }

    /// The entry that ends an export table: no names and no address.
    pub fn null() -> (result: Self)
        ensures
            result@.plugin_name_view() is None,
            result@.primitive_name_view() is None,
            result@.address_view() == 0,
    {
        NamedPrimitive { export: sqExport::new() }
    }

    /// The underlying table entry.
    pub fn native(&self) -> (result: &sqExport)
        ensures
            *result == self@,
    {
        &self.export
    }

    /// The plugin name; empty when it is not set.
    pub fn plugin_name(&self) -> (result: String)
        ensures
            result@ == self@.plugin_name_text(),
    {
        self.export.plugin_name()
    }

    /// This primitive with the given plugin name, which may be given only once
    /// and may not hold a zero character.
    pub fn with_plugin_name(self, name: String) -> (result: Self)
        requires
            self@.plugin_name_view() is None,
            !name@.contains('\0'),
        ensures
            result@.plugin_name_view() == Some(name@),
            result@.primitive_name_view() == self@.primitive_name_view(),
            result@.address_view() == self@.address_view(),
    {
        let mut this = self;
        this.export.set_plugin_name(name);
        this
    }

    /// The primitive name; empty when it is not set.
    pub fn primitive_name(&self) -> (result: String)
        requires
            self@.readable(),
        ensures
            result@ == self@.primitive_name_text(),
    {
        self.export.primitive_name()
    }

    /// This primitive with the given primitive name, which may be given only
    /// once and may not hold a zero character.
    pub fn with_primitive_name(self, name: String) -> (result: Self)
        requires
            self@.primitive_name_view() is None,
            !name@.contains('\0'),
        ensures
            result@.primitive_name_view() == Some(encode_utf8(name@)),
            result@.primitive_name_text() == name@,
            result@.readable(),
            result@.plugin_name_view() == self@.plugin_name_view(),
            result@.address_view() == self@.address_view(),
    {
        let mut this = self;
        this.export.set_primitive_name(name);
        this
    }

    /// This primitive with a primitive name given as the bytes of a C string
    /// (what comes before the first zero byte, which must be present).
    pub fn with_primitive_name_bytes(self, name: Vec<u8>) -> (result: Self)
        requires
            self@.primitive_name_view() is None,
            name@.contains(0u8),
        ensures
            result@.primitive_name_view() == Some(name@.take(first_nul(name@))),
            result@.plugin_name_view() == self@.plugin_name_view(),
            result@.address_view() == self@.address_view(),
    {
        let mut this = self;
        this.export.set_primitive_name_bytes(name);
        this
    }

    /// The primitive's address; zero when it is not set.
    pub fn primitive_address(&self) -> (result: usize)
        ensures
            result == self@.address_view(),
    {
        self.export.primitive_address()
    }

    /// This primitive with the given address.
    pub fn with_primitive_address(self, address: usize) -> (result: Self)
        ensures
            result@.address_view() == address,
            result@.plugin_name_view() == self@.plugin_name_view(),
            result@.primitive_name_view() == self@.primitive_name_view(),
    {
        let mut this = self;
        this.export.set_primitive_address(address);
        this
    }

    /// The number of valid entries at the front of an export table.
    pub fn detect_exports_length(exports: &Vec<NamedPrimitive>) -> (length: usize)
        ensures
            length == valid_prefix_len(exports@),
    {
        let mut length: usize = 0;
        proof {
            lemma_valid_prefix_len(exports@);
        }
        while length < exports.len() && exports[length].export.is_valid()
            invariant
                length <= valid_prefix_len(exports@) <= exports@.len(),
                forall|i: int| 0 <= i < valid_prefix_len(exports@) ==> (#[trigger] exports@[i]).view().valid(),
                valid_prefix_len(exports@) < exports@.len() ==> !exports@[valid_prefix_len(exports@) as int].view().valid(),
            decreases exports@.len() - length,
        {
            length = length + 1;
        }
        length
    }
}

/// The bytes of a primitive's name as the interpreter expects them: the
/// name, a zero byte and the accessor depth 255.
pub open spec fn primitive_name_bytes(name: Seq<char>) -> Seq<u8> {
    encode_utf8(name) + seq![0u8, 255u8]
}

/// A primitive exported under the name of a Rust function, with an empty
/// plugin name (the expansion of the `primitive!` macro).
pub fn primitive(function_name: &str, address: usize) -> (result: NamedPrimitive)
    requires
        !function_name@.contains('\0'),
    ensures
        result@.plugin_name_view() == Some(Seq::<char>::empty()),
        result@.primitive_name_view() == Some(encode_utf8(function_name@)),
        result@.primitive_name_text() == function_name@,
        result@.address_view() == address,
{
    let mut bytes = utf8_bytes(function_name);
    bytes.push(0u8);
    bytes.push(255u8);
    proof {
        lemma_utf8_no_nul(function_name@);
        let e = encode_utf8(function_name@);
        assert(bytes@ =~= e + seq![0u8, 255u8]);
        lemma_first_nul_after(e, seq![0u8, 255u8]);
        assert(bytes@.take(e.len() as int) =~= e);
    }
    NamedPrimitive::new()
        .with_plugin_name(String::new())
        .with_primitive_name_bytes(bytes)
        .with_primitive_address(address)
}

proof fn lemma_first_nul_after(prefix: Seq<u8>, suffix: Seq<u8>)
    requires
        !prefix.contains(0u8),
        suffix.len() > 0,
        suffix[0] == 0,
    ensures
        first_nul(prefix + suffix) == prefix.len(),
        (prefix + suffix).contains(0u8),
    decreases prefix.len(),
{
    let all = prefix + suffix;
    assert(all[prefix.len() as int] == 0u8);
    if prefix.len() > 0 {
        assert(prefix[0] != 0) by {
            if prefix[0] == 0 {
                assert(prefix.contains(0u8));
            }
        }
        assert(all.skip(1) =~= prefix.skip(1) + suffix);
        assert(!prefix.skip(1).contains(0u8)) by {
            if prefix.skip(1).contains(0u8) {
                let j = choose|j: int| 0 <= j < prefix.skip(1).len() && prefix.skip(1)[j] == 0u8;
                assert(prefix[j + 1] == 0u8);
            }
        }
        lemma_first_nul_after(prefix.skip(1), suffix);
    }
}


proof fn lemma_scalar_no_nul(c: u32)
    requires
        c != 0,
    ensures
        !encode_scalar(c).contains(0u8),
{
    let e = encode_scalar(c);
    if has_width_1_encoding(c) {
        assert((c & 0x7F) as u8 != 0) by (bit_vector)
            requires
                c != 0,
                c <= 0x7F,
        ;
    } else {
        assert forall|x: u8| (0xC0u8 | x) != 0u8 && (0xE0u8 | x) != 0u8 && (0xF0u8 | x) != 0u8
            && (0x80u8 | x) != 0u8 by {
            assert((0xC0u8 | x) != 0u8 && (0xE0u8 | x) != 0u8 && (0xF0u8 | x) != 0u8 && (0x80u8 | x)
                != 0u8) by (bit_vector);
        }
    }
    assert forall|i: int| 0 <= i < e.len() implies e[i] != 0u8 by {}
}

/// Only the zero character encodes to a zero byte.
pub proof fn lemma_utf8_no_nul(chars: Seq<char>)
    requires
        !chars.contains('\0'),
    ensures
        !encode_utf8(chars).contains(0u8),
    decreases chars.len(),
{
    if chars.len() > 0 {
        let head = encode_scalar(chars[0] as u32);
        assert(chars[0] != '\0') by {
            if chars[0] == '\0' {
                assert(chars.contains('\0'));
            }
        }
        assert((chars[0] as u32) != 0u32) by {
            if (chars[0] as u32) == 0u32 {
                vstd::utf8::char_u32_cast(chars[0], 0u32);
                assert(('\0' as u32) == 0u32);
                vstd::utf8::char_u32_cast('\0', 0u32);
            }
        }
        lemma_scalar_no_nul(chars[0] as u32);
        assert(!chars.drop_first().contains('\0')) by {
            if chars.drop_first().contains('\0') {
                let j = choose|j: int| 0 <= j < chars.drop_first().len() && chars.drop_first()[j] == '\0';
                assert(chars[j + 1] == '\0');
            }
        }
        lemma_utf8_no_nul(chars.drop_first());
        let tail = encode_utf8(chars.drop_first());
        assert(encode_utf8(chars) == head + tail);
        assert forall|i: int| 0 <= i < (head + tail).len() implies (head + tail)[i] != 0u8 by {
            if i < head.len() {
                assert(!head.contains(0u8));
                if head[i] == 0u8 {
                    assert(head.contains(0u8));
                }
            } else {
                assert((head + tail)[i] == tail[i - head.len()]);
                if tail[i - head.len()] == 0u8 {
                    assert(tail.contains(0u8));
                }
            }
        }
    }
}

} // verus!
