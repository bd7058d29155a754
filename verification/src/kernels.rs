//! The compute kernels that the engine is built with: their names, their
//! variants, and the header that a compiled kernel is written to.

use vstd::prelude::*;
use vstd::string::StringExecFns;

verus! {

/// The compute shaders that the engine is built with.
#[derive(Debug, Clone, Copy, PartialEq, Eq, Structural)]
pub enum Shader {
    Preproc,
    Postproc,
    PreprocTta,
    PostprocTta,
}

/// The precisions that every shader is compiled for.
#[derive(Debug, Clone, Copy, PartialEq, Eq, Structural)]
pub enum Variant {
    /// Full precision: no macro is defined.
    Default,
    /// 16-bit storage.
    Fp16Storage,
    /// 16-bit and 8-bit storage.
    Int8Storage,
}

impl Shader {
    /// The name of the shader, which its source file and its headers are
    /// named after.
    pub open spec fn stem_text(self) -> Seq<char> {
        match self {
            Shader::Preproc => "realesrgan_preproc"@,
            Shader::Postproc => "realesrgan_postproc"@,
            Shader::PreprocTta => "realesrgan_preproc_tta"@,
            Shader::PostprocTta => "realesrgan_postproc_tta"@,
        }
    }

    /// The name of the shader, which its source file and its headers are
    /// named after.
    pub fn stem(&self) -> (stem: &'static str)
        ensures
            stem@ == self.stem_text(),
    {
        match self {
            Shader::Preproc => "realesrgan_preproc",
            Shader::Postproc => "realesrgan_postproc",
            Shader::PreprocTta => "realesrgan_preproc_tta",
            Shader::PostprocTta => "realesrgan_postproc_tta",
        }
    }

    /// The name of the file that holds the shader's source: the stem and
    /// `.comp`.
    pub fn source_name(&self) -> (name: String)
        ensures
            name@ == self.stem_text() + ".comp"@,
    {
        let mut name = String::new();
        name.append(self.stem());
        name.append(".comp");
        name
    }

    /// The name of the header that holds the shader compiled for `variant`:
    /// the stem, the variant's suffix and `.spv.hex.h`.
    pub fn header_name(&self, variant: Variant) -> (name: String)
        ensures
            name@ == self.stem_text() + variant.suffix_text() + ".spv.hex.h"@,
    {
        let mut name = String::new();
        name.append(self.stem());
        name.append(variant.suffix());
        name.append(".spv.hex.h");
        name
    }
}

impl Variant {
    /// What the variant adds to a shader's name.
    pub open spec fn suffix_text(self) -> Seq<char> {
        match self {
            Variant::Default => ""@,
            Variant::Fp16Storage => "_fp16s"@,
            Variant::Int8Storage => "_int8s"@,
        }
    }

    /// What the variant adds to a shader's name.
    pub fn suffix(&self) -> (suffix: &'static str)
        ensures
            suffix@ == self.suffix_text(),
    {
        match self {
            Variant::Default => "",
            Variant::Fp16Storage => "_fp16s",
            Variant::Int8Storage => "_int8s",
        }
    }

    /// The macros that the variant is compiled with. Each is defined as 1.
    pub open spec fn macro_names(self) -> Seq<Seq<char>> {
        match self {
            Variant::Default => Seq::empty(),
            Variant::Fp16Storage => seq!["NCNN_fp16_storage"@],
            Variant::Int8Storage => seq!["NCNN_fp16_storage"@, "NCNN_int8_storage"@],
        }
    }

    /// The macros that the variant is compiled with, each with the value
    /// that it is defined as.
    pub fn macro_definitions(&self) -> (macros: Vec<(&'static str, &'static str)>)
        ensures
            macros@.len() == self.macro_names().len(),
            forall|i: int|
                0 <= i < macros@.len() ==> (#[trigger] macros@[i]).0@ == self.macro_names()[i]
                    && macros@[i].1@ == "1"@,
    {
        let mut macros: Vec<(&'static str, &'static str)> = Vec::new();
        match self {
            Variant::Default => {},
            Variant::Fp16Storage => {
                macros.push(("NCNN_fp16_storage", "1"));
            },
            Variant::Int8Storage => {
                macros.push(("NCNN_fp16_storage", "1"));
                macros.push(("NCNN_int8_storage", "1"));
            },
        }
        macros
    }
}

/// The shaders in the order in which they are compiled.
pub open spec fn shader_order() -> Seq<Shader> {
    seq![Shader::Preproc, Shader::Postproc, Shader::PreprocTta, Shader::PostprocTta]
}

/// The variants in the order in which a shader is compiled for them.
pub open spec fn variant_order() -> Seq<Variant> {
    seq![Variant::Default, Variant::Fp16Storage, Variant::Int8Storage]
}

/// Every kernel to compile, in order: each shader in turn, for each of the
/// three variants.
pub fn kernel_plan() -> (plan: Vec<(Shader, Variant)>)
    ensures
        plan@.len() == 12,
        forall|i: int|
            0 <= i < 12 ==> #[trigger] plan@[i] == (shader_order()[i / 3], variant_order()[i % 3]),
{
    let shaders = [Shader::Preproc, Shader::Postproc, Shader::PreprocTta, Shader::PostprocTta];
    let mut plan: Vec<(Shader, Variant)> = Vec::new();
    let mut at: usize = 0;
    while at < 4
        invariant
            at <= 4,
            shaders@ == shader_order(),
            plan@.len() == 3 * at,
            forall|i: int|
                0 <= i < 3 * at ==> #[trigger] plan@[i] == (
                    shader_order()[i / 3],
                    variant_order()[i % 3],
                ),
        decreases 4 - at,
    {
        let shader = shaders[at];
        plan.push((shader, Variant::Default));
        plan.push((shader, Variant::Fp16Storage));
        plan.push((shader, Variant::Int8Storage));
        at = at + 1;
    }
    plan
}

/// The character that stands for `digit` in lower-case hexadecimal.
pub open spec fn hex_digit(digit: int) -> char {
    if digit == 0 {
        '0'
    } else if digit == 1 {
        '1'
    } else if digit == 2 {
        '2'
    } else if digit == 3 {
        '3'
    } else if digit == 4 {
        '4'
    } else if digit == 5 {
        '5'
    } else if digit == 6 {
        '6'
    } else if digit == 7 {
        '7'
    } else if digit == 8 {
        '8'
    } else if digit == 9 {
        '9'
    } else if digit == 10 {
        'a'
    } else if digit == 11 {
        'b'
    } else if digit == 12 {
        'c'
    } else if digit == 13 {
        'd'
    } else if digit == 14 {
        'e'
    } else {
        'f'
    }
}

/// `word` as `0x` and eight hexadecimal digits, the highest first.
pub open spec fn hex_word(word: int) -> Seq<char> {
    seq![
        '0',
        'x',
        hex_digit(word / 0x1000_0000 % 16),
        hex_digit(word / 0x100_0000 % 16),
        hex_digit(word / 0x10_0000 % 16),
        hex_digit(word / 0x1_0000 % 16),
        hex_digit(word / 0x1000 % 16),
        hex_digit(word / 0x100 % 16),
        hex_digit(word / 0x10 % 16),
        hex_digit(word % 16),
    ]
}

/// How many whole 32-bit words `bytes` hold. Up to three bytes at the end
/// that do not make a word are left out.
pub open spec fn word_count(bytes: Seq<u8>) -> int {
    bytes.len() as int / 4
}

/// The word at `index` of `bytes`, its lowest byte first.
pub open spec fn word_at(bytes: Seq<u8>, index: int) -> int {
    bytes[4 * index] + bytes[4 * index + 1] * 0x100 + bytes[4 * index + 2] * 0x1_0000 + bytes[4
        * index + 3] * 0x100_0000
}

/// What is written before the word at `index`: four spaces where a line
/// starts, which is at every eighth word.
pub open spec fn lead(index: int) -> Seq<char> {
    if index % 8 == 0 {
        seq![' ', ' ', ' ', ' ']
    } else {
        Seq::empty()
    }
}

/// What is written after the word at `index` of `count`: a comma unless the
/// word is the last, and then a line break where the line is full or the
/// table ends, a space elsewhere.
pub open spec fn trail(index: int, count: int) -> Seq<char> {
    let comma = if index < count - 1 {
        seq![',']
    } else {
        Seq::empty()
    };
    let gap = if index % 8 == 7 || index == count - 1 {
        seq!['\n']
    } else {
        seq![' ']
    };
    comma + gap
}

/// The first `upto` words of `bytes` as a table of `count` words.
pub open spec fn hex_table(bytes: Seq<u8>, upto: int, count: int) -> Seq<char>
    decreases upto,
{
    if upto <= 0 {
        Seq::empty()
    } else {
        hex_table(bytes, upto - 1, count) + lead(upto - 1) + hex_word(word_at(bytes, upto - 1))
            + trail(upto - 1, count)
    }
}

/// The words of `bytes` as a table in hexadecimal, eight to a line.
pub open spec fn hex_header(bytes: Seq<u8>) -> Seq<char> {
    hex_table(bytes, word_count(bytes), word_count(bytes))
}

/// The hexadecimal digit `digit` as text.
fn digit_text(digit: u32) -> (text: &'static str)
    requires
        digit < 16,
    ensures
        text@ == seq![hex_digit(digit as int)],
{
    proof {
        reveal_strlit("0");
        reveal_strlit("1");
        reveal_strlit("2");
        reveal_strlit("3");
        reveal_strlit("4");
        reveal_strlit("5");
        reveal_strlit("6");
        reveal_strlit("7");
        reveal_strlit("8");
        reveal_strlit("9");
        reveal_strlit("a");
        reveal_strlit("b");
        reveal_strlit("c");
        reveal_strlit("d");
        reveal_strlit("e");
        reveal_strlit("f");
    }
    let text = if digit == 0 {
        "0"
    } else if digit == 1 {
        "1"
    } else if digit == 2 {
        "2"
    } else if digit == 3 {
        "3"
    } else if digit == 4 {
        "4"
    } else if digit == 5 {
        "5"
    } else if digit == 6 {
        "6"
    } else if digit == 7 {
        "7"
    } else if digit == 8 {
        "8"
    } else if digit == 9 {
        "9"
    } else if digit == 10 {
        "a"
    } else if digit == 11 {
        "b"
    } else if digit == 12 {
        "c"
    } else if digit == 13 {
        "d"
    } else if digit == 14 {
        "e"
    } else {
        "f"
    };
    text
}

/// Writes `word` to the end of `text`.
fn push_word(text: &mut String, word: u32)
    ensures
        final(text)@ == old(text)@ + hex_word(word as int),
{
    proof {
        reveal_strlit("0x");
    }
    text.append("0x");
    text.append(digit_text(word / 0x1000_0000 % 16));
    text.append(digit_text(word / 0x100_0000 % 16));
    text.append(digit_text(word / 0x10_0000 % 16));
    text.append(digit_text(word / 0x1_0000 % 16));
    text.append(digit_text(word / 0x1000 % 16));
    text.append(digit_text(word / 0x100 % 16));
    text.append(digit_text(word / 0x10 % 16));
    text.append(digit_text(word % 16));
}

/// Writes the 32-bit words of `spirv_bytes`, each taken lowest byte first,
/// as a table for inclusion in C source: `0x` and eight hexadecimal digits
/// per word, eight words to a line after four spaces, a comma after every
/// word but the last, and a line break at the end.
pub fn generate_hex_header(spirv_bytes: &[u8]) -> (header: String)
    ensures
        header@ == hex_header(spirv_bytes@),
{
    let mut header = String::new();
    let count = spirv_bytes.len() / 4;
    let mut index: usize = 0;
    while index < count
        invariant
            index <= count,
            count == word_count(spirv_bytes@),
            spirv_bytes@.len() <= usize::MAX,
            header@ == hex_table(spirv_bytes@, index as int, count as int),
        decreases count - index,
    {
        proof {
            reveal_strlit("    ");
            reveal_strlit(",");
            reveal_strlit("\n");
            reveal_strlit(" ");
        }
        let ghost before = header@;
        if index % 8 == 0 {
            header.append("    ");
        }
        let word = spirv_bytes[4 * index] as u32 + spirv_bytes[4 * index + 1] as u32 * 0x100
            + spirv_bytes[4 * index + 2] as u32 * 0x1_0000 + spirv_bytes[4 * index + 3] as u32
            * 0x100_0000;
        push_word(&mut header, word);
        if index < count - 1 {
            header.append(",");
        }
        if index % 8 == 7 || index == count - 1 {
            header.append("\n");
        } else {
            header.append(" ");
        }
        assert(header@ =~= before + lead(index as int) + hex_word(
            word_at(spirv_bytes@, index as int),
        ) + trail(index as int, count as int));
        index = index + 1;
    }
    header
}

} // verus!
