//! Text encodings of DWG strings and their decoding by `encoding_rs`.

use vstd::prelude::*;

verus! {

/// The text encodings DWG strings are stored in.
#[derive(Debug, Clone, Copy, PartialEq, Eq)]
pub enum TextEncoding {
    /// Western European (also the default).
    Windows1252,
    /// Central European.
    Windows1250,
    /// Cyrillic.
    Windows1251,
    /// Greek.
    Windows1253,
    /// Turkish.
    Windows1254,
    /// Hebrew.
    Windows1255,
    /// Arabic.
    Windows1256,
    /// Baltic.
    Windows1257,
    /// Thai.
    Windows874,
    /// Japanese.
    ShiftJis,
    /// Simplified Chinese.
    Gbk,
    /// Korean.
    EucKr,
    /// Traditional Chinese.
    Big5,
    /// UTF-16, little endian (R2007+ strings).
    Utf16Le,
}

/// The WHATWG label of an encoding.
pub open spec fn encoding_label(e: TextEncoding) -> Seq<char> {
    match e {
        TextEncoding::Windows1252 => seq!['w', 'i', 'n', 'd', 'o', 'w', 's', '-', '1', '2', '5', '2'],
        TextEncoding::Windows1250 => seq!['w', 'i', 'n', 'd', 'o', 'w', 's', '-', '1', '2', '5', '0'],
        TextEncoding::Windows1251 => seq!['w', 'i', 'n', 'd', 'o', 'w', 's', '-', '1', '2', '5', '1'],
        TextEncoding::Windows1253 => seq!['w', 'i', 'n', 'd', 'o', 'w', 's', '-', '1', '2', '5', '3'],
        TextEncoding::Windows1254 => seq!['w', 'i', 'n', 'd', 'o', 'w', 's', '-', '1', '2', '5', '4'],
        TextEncoding::Windows1255 => seq!['w', 'i', 'n', 'd', 'o', 'w', 's', '-', '1', '2', '5', '5'],
        TextEncoding::Windows1256 => seq!['w', 'i', 'n', 'd', 'o', 'w', 's', '-', '1', '2', '5', '6'],
        TextEncoding::Windows1257 => seq!['w', 'i', 'n', 'd', 'o', 'w', 's', '-', '1', '2', '5', '7'],
        TextEncoding::Windows874 => seq!['w', 'i', 'n', 'd', 'o', 'w', 's', '-', '8', '7', '4'],
        TextEncoding::ShiftJis => seq!['s', 'h', 'i', 'f', 't', '_', 'j', 'i', 's'],
        TextEncoding::Gbk => seq!['g', 'b', 'k'],
        TextEncoding::EucKr => seq!['e', 'u', 'c', '-', 'k', 'r'],
        TextEncoding::Big5 => seq!['b', 'i', 'g', '5'],
        TextEncoding::Utf16Le => seq!['u', 't', 'f', '-', '1', '6', 'l', 'e'],
    }
}

/// The text `encoding_rs` decodes from `bytes` with the encoding it finds for
/// `label` (`Encoding::for_label` then `Encoding::decode`).
pub uninterp spec fn decoded_text(label: Seq<char>, bytes: Seq<u8>) -> Seq<char>;

/// The name of an encoding, as `encoding_rs` gives it (`Encoding::name`):
/// the label for the Windows code pages, the WHATWG name for the others.
pub open spec fn encoding_name(e: TextEncoding) -> Seq<char> {
    match e {
        TextEncoding::Windows1252 => seq!['w', 'i', 'n', 'd', 'o', 'w', 's', '-', '1', '2', '5', '2'],
        TextEncoding::Windows1250 => seq!['w', 'i', 'n', 'd', 'o', 'w', 's', '-', '1', '2', '5', '0'],
        TextEncoding::Windows1251 => seq!['w', 'i', 'n', 'd', 'o', 'w', 's', '-', '1', '2', '5', '1'],
        TextEncoding::Windows1253 => seq!['w', 'i', 'n', 'd', 'o', 'w', 's', '-', '1', '2', '5', '3'],
        TextEncoding::Windows1254 => seq!['w', 'i', 'n', 'd', 'o', 'w', 's', '-', '1', '2', '5', '4'],
        TextEncoding::Windows1255 => seq!['w', 'i', 'n', 'd', 'o', 'w', 's', '-', '1', '2', '5', '5'],
        TextEncoding::Windows1256 => seq!['w', 'i', 'n', 'd', 'o', 'w', 's', '-', '1', '2', '5', '6'],
        TextEncoding::Windows1257 => seq!['w', 'i', 'n', 'd', 'o', 'w', 's', '-', '1', '2', '5', '7'],
        TextEncoding::Windows874 => seq!['w', 'i', 'n', 'd', 'o', 'w', 's', '-', '8', '7', '4'],
        TextEncoding::ShiftJis => seq!['S', 'h', 'i', 'f', 't', '_', 'J', 'I', 'S'],
        TextEncoding::Gbk => seq!['G', 'B', 'K'],
        TextEncoding::EucKr => seq!['E', 'U', 'C', '-', 'K', 'R'],
        TextEncoding::Big5 => seq!['B', 'i', 'g', '5'],
        TextEncoding::Utf16Le => seq!['U', 'T', 'F', '-', '1', '6', 'L', 'E'],
    }
}

/// Labels that name one of the encodings of [`TextEncoding`].
pub open spec fn is_supported_label(label: Seq<char>) -> bool {
    exists|e: TextEncoding| encoding_label(e) == label
}

/// Decode `bytes` with `encoding_rs`: `Encoding::for_label(label)` finds the
/// encoding, `Encoding::decode` decodes (sniffing a byte-order mark, replacing
/// malformed sequences).  Trusted: for every label of [`TextEncoding`] the
/// lookup succeeds (these are WHATWG labels the crate documents), and the
/// result is the named value `decoded_text(label, bytes)`; its characters are
/// not stated.
#[verifier::external_body]
fn decode_with_label(label: &str, bytes: &[u8]) -> (text: String)
    requires
        is_supported_label(label@),
    ensures
        text@ == decoded_text(label@, bytes@),
{
    let encoding = encoding_rs::Encoding::for_label(label.as_bytes()).unwrap();
    encoding.decode(bytes).0.into_owned()
}

/// The name of the encoding `encoding_rs` finds for `label`
/// (`Encoding::for_label`, then `Encoding::name`).  Trusted: the lookup
/// succeeds for the labels of [`TextEncoding`], finds the encoding of that
/// label, and its name is the one [`encoding_name`] gives.
#[verifier::external_body]
fn name_for_label(label: &str) -> (name: &'static str)
    requires
        is_supported_label(label@),
    ensures
        forall|e: TextEncoding| encoding_label(e) == label@ ==> name@ == encoding_name(e),
{
    encoding_rs::Encoding::for_label(label.as_bytes()).unwrap().name()
}

impl TextEncoding {
    /// The WHATWG label of this encoding.
    pub fn label(&self) -> (r: &'static str)
        ensures
            r@ == encoding_label(*self),
    {
        proof {
            reveal_strlit("windows-1252");
            reveal_strlit("windows-1250");
            reveal_strlit("windows-1251");
            reveal_strlit("windows-1253");
            reveal_strlit("windows-1254");
            reveal_strlit("windows-1255");
            reveal_strlit("windows-1256");
            reveal_strlit("windows-1257");
            reveal_strlit("windows-874");
            reveal_strlit("shift_jis");
            reveal_strlit("gbk");
            reveal_strlit("euc-kr");
            reveal_strlit("big5");
            reveal_strlit("utf-16le");
        }
        let r = match self {
            TextEncoding::Windows1252 => "windows-1252",
            TextEncoding::Windows1250 => "windows-1250",
            TextEncoding::Windows1251 => "windows-1251",
            TextEncoding::Windows1253 => "windows-1253",
            TextEncoding::Windows1254 => "windows-1254",
            TextEncoding::Windows1255 => "windows-1255",
            TextEncoding::Windows1256 => "windows-1256",
            TextEncoding::Windows1257 => "windows-1257",
            TextEncoding::Windows874 => "windows-874",
            TextEncoding::ShiftJis => "shift_jis",
            TextEncoding::Gbk => "gbk",
            TextEncoding::EucKr => "euc-kr",
            TextEncoding::Big5 => "big5",
            TextEncoding::Utf16Le => "utf-16le",
        };
        assert(r@ =~= encoding_label(*self));
        r
    }

    /// The name `encoding_rs` gives this encoding.
    pub fn name(&self) -> (r: &'static str)
        ensures
            r@ == encoding_name(*self),
    {
        let label = self.label();
        name_for_label(label)
    }

    /// Decode `bytes` in this encoding.
    pub fn decode(&self, bytes: &[u8]) -> (r: String)
        ensures
            r@ == decoded_text(encoding_label(*self), bytes@),
    {
        let label = self.label();
        decode_with_label(label, bytes)
    }
}

/// The encoding of a DWG code-page byte; unknown code pages are read as
/// Windows-1252.
pub open spec fn code_page_encoding(key: u8) -> TextEncoding {
    if key == 0x02 {
        TextEncoding::Windows1250
    } else if key == 0x03 {
        TextEncoding::Windows1251
    } else if key == 0x04 {
        TextEncoding::Windows1253
    } else if key == 0x05 {
        TextEncoding::Windows1254
    } else if key == 0x06 {
        TextEncoding::Windows1255
    } else if key == 0x07 {
        TextEncoding::Windows1256
    } else if key == 0x08 {
        TextEncoding::Windows1257
    } else if key == 0x0A {
        TextEncoding::Windows874
    } else if key == 0x0B {
        TextEncoding::ShiftJis
    } else if key == 0x0C {
        TextEncoding::Gbk
    } else if key == 0x0D {
        TextEncoding::EucKr
    } else if key == 0x0E {
        TextEncoding::Big5
    } else {
        TextEncoding::Windows1252
    }
}

/// Map a DWG code-page byte to its text encoding.
pub fn encoding_from_code_page(key: u8) -> (r: TextEncoding)
    ensures
        r == code_page_encoding(key),
{
    match key {
        0x02 => TextEncoding::Windows1250,
        0x03 => TextEncoding::Windows1251,
        0x04 => TextEncoding::Windows1253,
        0x05 => TextEncoding::Windows1254,
        0x06 => TextEncoding::Windows1255,
        0x07 => TextEncoding::Windows1256,
        0x08 => TextEncoding::Windows1257,
        0x0A => TextEncoding::Windows874,
        0x0B => TextEncoding::ShiftJis,
        0x0C => TextEncoding::Gbk,
        0x0D => TextEncoding::EucKr,
        0x0E => TextEncoding::Big5,
        _ => TextEncoding::Windows1252,
    }
}

} // verus!
