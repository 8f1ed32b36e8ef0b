//! Kernel source text. A kernel declares one buffer per name, `b0` first, each an
//! unsized array of `uint` in its own descriptor set at binding 0, and one entry
//! procedure that runs the statement at the invocation's index.

use vstd::prelude::*;
use crate::names::{
    digits_end, is_digit, lemma_digits_end_from_within, names_at, number, DIGIT_ZERO, LETTER_B,
};

verus! {

/// The name of the entry procedure of every kernel.
pub const ENTRY_POINT: &'static str = "main";

/// The file name under which kernel source is handed to the kernel compiler.
pub const FILE_NAME: &'static str = "shader.glsl";

/// The character that writes a digit.
pub open spec fn digit_char(d: nat) -> char {
    if d == 0 {
        '0'
    } else if d == 1 {
        '1'
    } else if d == 2 {
        '2'
    } else if d == 3 {
        '3'
    } else if d == 4 {
        '4'
    } else if d == 5 {
        '5'
    } else if d == 6 {
        '6'
    } else if d == 7 {
        '7'
    } else if d == 8 {
        '8'
    } else {
        '9'
    }
}

/// A number as it is plainly written in decimal.
pub open spec fn decimal(n: nat) -> Seq<char>
    decreases n,
{
    if n < 10 {
        seq![digit_char(n)]
    } else {
        decimal(n / 10).push(digit_char(n % 10))
    }
}

/// The declaration of buffer `i`.
pub open spec fn declaration(i: nat) -> Seq<char> {
    "layout(set = "@ + decimal(i) + ", binding = 0) buffer Data"@ + decimal(i)
        + " {uint data[];} b"@ + decimal(i) + ";\n"@
}

/// The declarations of the buffers 0 to `n - 1`, in order.
pub open spec fn declarations(n: nat) -> Seq<char>
    decreases n,
{
    if n == 0 {
        Seq::empty()
    } else {
        declarations((n - 1) as nat) + declaration((n - 1) as nat)
    }
}

/// The source of a kernel over `n` buffers that runs `statement`.
pub open spec fn source_text(n: nat, statement: Seq<char>) -> Seq<char> {
    "#version 450\n"@ + declarations(n)
        + "void "@ + ENTRY_POINT@
        + "() {\n            uint idx = gl_GlobalInvocationID.x;\n            "@ + statement + ";\n            }"@
}

/// The source of a kernel, and how many buffers it declares.
#[derive(Debug, Clone, PartialEq, Eq)]
pub struct KernelSource {
    pub text: String,
    pub buffer_count: usize,
}

/// One digit as text.
fn digit_text(d: usize) -> (s: &'static str)
    requires
        d < 10,
    ensures
        s@ == seq![digit_char(d as nat)],
{
    proof {
        reveal_strlit("0");
        reveal_strlit("1");
        reveal_strlit("2");
        reveal_strlit("3");
        reveal_strlit("4");
        reveal_strlit("5");
        reveal_strlit("6");
        reveal_strlit("7");
        reveal_strlit("8");
        reveal_strlit("9");
    }
    let s: &'static str = if d == 0 {
        "0"
    } else if d == 1 {
        "1"
    } else if d == 2 {
        "2"
    } else if d == 3 {
        "3"
    } else if d == 4 {
        "4"
    } else if d == 5 {
        "5"
    } else if d == 6 {
        "6"
    } else if d == 7 {
        "7"
    } else if d == 8 {
        "8"
    } else {
        "9"
    };
    assert(s@ =~= seq![digit_char(d as nat)]);
    s
}

/// Writes a number in decimal.
pub fn decimal_text(n: usize) -> (text: String)
    ensures
        text@ == decimal(n as nat),
    decreases n,
{
    if n < 10 {
        String::from_str(digit_text(n))
    } else {
        let mut text: String = decimal_text(n / 10);
        text.append(digit_text(n % 10));
        assert(text@ =~= decimal((n / 10) as nat).push(digit_char((n % 10) as nat)));
        text
    }
}

impl KernelSource {
    /// Puts a kernel together: the version line, the declarations of `count`
    /// buffers, and the entry procedure around `statement`.
    pub fn assemble(count: usize, statement: &str) -> (source: KernelSource)
        ensures
            source.buffer_count == count,
            source.text@ == source_text(count as nat, statement@),
    {
        let mut text: String = String::from_str("#version 450\n");
        let mut i: usize = 0;
        while i < count
            invariant
                i <= count,
                text@ == "#version 450\n"@ + declarations(i as nat),
            decreases count - i,
        {
            let ghost before = text@;
            let index: String = decimal_text(i);
            text.append("layout(set = ");
            text.append(index.as_str());
            text.append(", binding = 0) buffer Data");
            text.append(index.as_str());
            text.append(" {uint data[];} b");
            text.append(index.as_str());
            text.append(";\n");
            assert(text@ =~= before + declaration(i as nat));
            assert(text@ =~= "#version 450\n"@ + declarations((i + 1) as nat));
            i = i + 1;
        }
        let ghost head = text@;
        text.append("void ");
        text.append(ENTRY_POINT);
        text.append("() {\n            uint idx = gl_GlobalInvocationID.x;\n            ");
        text.append(statement);
        text.append(";\n            }");
        assert(text@ =~= source_text(count as nat, statement@));
        KernelSource { text, buffer_count: count }
    }
}

/// The bytes of the name under which buffer `k` is declared: `b` and the number.
pub open spec fn name_bytes(k: nat) -> Seq<u8> {
    seq![LETTER_B] + decimal(k).map_values(|c: char| c as u8)
}

/// A number's decimal form has a digit, only digits, and, but for 0 itself, no
/// `0` in front.
pub proof fn lemma_decimal_digits(k: nat)
    ensures
        decimal(k).len() >= 1,
        forall|j: int| 0 <= j < decimal(k).len() ==> is_digit(#[trigger] decimal(k)[j] as u8),
        k >= 1 ==> decimal(k)[0] as u8 != DIGIT_ZERO,
        k < 10 ==> decimal(k).len() == 1,
    decreases k,
{
    if k >= 10 {
        lemma_decimal_digits(k / 10);
    }
}

/// The number that digits write depends on those digits alone.
pub proof fn lemma_number_of_equal_digits(a: Seq<u8>, b: Seq<u8>, from: int, to: int)
    requires
        0 <= from <= to,
        to <= a.len(),
        to <= b.len(),
        forall|j: int| from <= j < to ==> a[j] == b[j],
    ensures
        number(a, from, to) == number(b, from, to),
    decreases to - from,
{
    if from < to {
        lemma_number_of_equal_digits(a, b, from, to - 1);
    }
}

/// The digits of a declared name write the number of its buffer.
pub proof fn lemma_declared_number(k: nat)
    ensures
        number(name_bytes(k), 1, name_bytes(k).len() as int) == k,
    decreases k,
{
    let name = name_bytes(k);
    lemma_decimal_digits(k);
    if k < 10 {
        assert(number(name, 1, 1) == 0);
        assert(name[1] == digit_char(k) as u8);
    } else {
        let shorter = name_bytes(k / 10);
        lemma_declared_number(k / 10);
        lemma_decimal_digits(k / 10);
        assert(name.len() == shorter.len() + 1);
        assert forall|j: int| 1 <= j < shorter.len() implies name[j] == shorter[j] by {
            assert(decimal(k)[j - 1] == decimal(k / 10)[j - 1]);
        }
        lemma_number_of_equal_digits(name, shorter, 1, shorter.len() as int);
        assert(name[name.len() - 1] == digit_char(k % 10) as u8);
    }
}

/// The name under which a buffer is declared is, read as the names of an
/// expression are read, the plain name of that buffer and nothing more.
pub proof fn lemma_declared_name_names_its_buffer(k: nat)
    ensures
        names_at(name_bytes(k), 0, k as int),
        digits_end(name_bytes(k), 1) == name_bytes(k).len(),
{
    let name = name_bytes(k);
    lemma_decimal_digits(k);
    lemma_declared_number(k);
    assert forall|j: int| 1 <= j < name.len() implies is_digit(#[trigger] name[j]) by {
        assert(name[j] == decimal(k)[j - 1] as u8);
    }
    lemma_digits_end_from_within(name, 1, name.len() as int);
    assert(name[1] == decimal(k)[0] as u8);
}

} // verus!
