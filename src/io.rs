use vstd::prelude::*;

verus! {

/// What went wrong, in a form that contracts and callers can match on.
#[derive(Clone, Copy, Debug, PartialEq, Eq, Structural)]
pub enum LiquidErrorKind {
    /// No window with this identifier is in the registry.
    WindowNotFound(u128),
    /// A window with this identifier is already in the registry.
    WindowAlreadyRegistered(u128),
    /// The OS refused to register the window class of this window.
    ClassRegistration(u128),
    /// The OS refused to create the native window.
    WindowCreation(u128),
    /// The native GPU loader could not be loaded.
    EntryLoad,
    /// The driver refused a construction step; the driver's status code.
    GpuStep(crate::renderer::VulkanStep, i32),
    /// No physical GPU device was enumerated.
    NoPhysicalDevice,
    /// The selected backend is not implemented.
    UnsupportedBackend,
    /// An engine state transition out of order.
    EngineState,
    /// No particular cause was given.
    Unspecified,
}

/// A failure: what went wrong, a readable message and the place it was raised.
#[derive(Debug)]
pub struct LiquidError {
    pub kind: LiquidErrorKind,
    pub msg: String,
    pub file: &'static str,
    pub line: u32,
    pub column: u32,
}

impl LiquidError {
    /// The error as one line of text:
    /// `Liquid Error caught, {msg : M, file : F, (L:C}`.
    pub fn to_text(&self) -> (r: String)
        ensures
            r@ == "Liquid Error caught, {msg : "@ + self.msg@ + ", file : "@ + self.file@ + ", ("@
                + decimal(self.line as nat) + ":"@ + decimal(self.column as nat) + "}"@,
    {
        let mut t = String::from_str("Liquid Error caught, {msg : ");
        t.append(self.msg.as_str());
        t.append(", file : ");
        t.append(self.file);
        t.append(", (");
        append_decimal(&mut t, self.line);
        t.append(":");
        append_decimal(&mut t, self.column);
        t.append("}");
        t
    }

    /// Builds an error of `kind` raised at `file:line:column`.
    pub fn at(kind: LiquidErrorKind, msg: &str, file: &'static str, line: u32, column: u32) -> (r:
        LiquidError)
        ensures
            r.kind == kind,
            r.msg@ == msg@,
            r.file == file,
            r.line == line,
            r.column == column,
    {
        LiquidError { kind, msg: String::from_str(msg), file, line, column }
    }
}

impl Default for LiquidError {
    fn default() -> (r: LiquidError)
        ensures
            r.kind == LiquidErrorKind::Unspecified,
            r.msg@.len() == 0,
            r.file@.len() == 0,
            r.line == 0,
            r.column == 0,
    {
        proof {
            reveal_strlit("");
        }
        LiquidError { kind: LiquidErrorKind::Unspecified, msg: String::new(), file: "", line: 0, column: 0 }
    }
}

/// The digit character of `d`.
pub open spec fn digit_char(d: nat) -> char {
    if d == 0 {
        '0'
    } else if d == 1 {
        '1'
    } else if d == 2 {
        '2'
    } else if d == 3 {
        '3'
    } else if d == 4 {
        '4'
    } else if d == 5 {
        '5'
    } else if d == 6 {
        '6'
    } else if d == 7 {
        '7'
    } else if d == 8 {
        '8'
    } else {
        '9'
    }
}

/// The decimal digits of `n`, most significant first, without leading zeros.
pub open spec fn decimal(n: nat) -> Seq<char>
    decreases n,
{
    if n < 10 {
        seq![digit_char(n)]
    } else {
        decimal(n / 10).push(digit_char(n % 10))
    }
}

fn append_digit(s: &mut String, d: u32)
    requires
        d < 10,
    ensures
        final(s)@ == old(s)@.push(digit_char(d as nat)),
{
    let digit = if d == 0 {
        "0"
    } else if d == 1 {
        "1"
    } else if d == 2 {
        "2"
    } else if d == 3 {
        "3"
    } else if d == 4 {
        "4"
    } else if d == 5 {
        "5"
    } else if d == 6 {
        "6"
    } else if d == 7 {
        "7"
    } else if d == 8 {
        "8"
    } else {
        "9"
    };
    proof {
        reveal_strlit("0");
        reveal_strlit("1");
        reveal_strlit("2");
        reveal_strlit("3");
        reveal_strlit("4");
        reveal_strlit("5");
        reveal_strlit("6");
        reveal_strlit("7");
        reveal_strlit("8");
        reveal_strlit("9");
        assert(digit@ =~= seq![digit_char(d as nat)]);
    }
    s.append(digit);
}

pub fn append_decimal(s: &mut String, n: u32)
    ensures
        final(s)@ == old(s)@ + decimal(n as nat),
    decreases n,
{
    if n >= 10 {
        append_decimal(s, n / 10);
    }
    append_digit(s, n % 10);
    proof {
        if n >= 10 {
            assert(old(s)@ + decimal(n as nat) =~= old(s)@ + decimal((n / 10) as nat) + seq![
                digit_char((n % 10) as nat),
            ]);
        } else {
            assert(old(s)@ + decimal(n as nat) =~= old(s)@.push(digit_char((n % 10) as nat)));
        }
    }
}

/// The hexadecimal digit character of `d`, lower case.
pub open spec fn hex_char(d: nat) -> char {
    if d == 0 {
        '0'
    } else if d == 1 {
        '1'
    } else if d == 2 {
        '2'
    } else if d == 3 {
        '3'
    } else if d == 4 {
        '4'
    } else if d == 5 {
        '5'
    } else if d == 6 {
        '6'
    } else if d == 7 {
        '7'
    } else if d == 8 {
        '8'
    } else if d == 9 {
        '9'
    } else if d == 10 {
        'a'
    } else if d == 11 {
        'b'
    } else if d == 12 {
        'c'
    } else if d == 13 {
        'd'
    } else if d == 14 {
        'e'
    } else {
        'f'
    }
}

/// The last `count` hexadecimal digits of `n`, most significant first.
pub open spec fn hex_digits(n: nat, count: nat) -> Seq<char>
    decreases count,
{
    if count == 0 {
        Seq::empty()
    } else {
        hex_digits(n / 16, (count - 1) as nat).push(hex_char(n % 16))
    }
}

/// An identifier as UUID text: 32 lower-case hexadecimal digits in groups of
/// 8, 4, 4, 4 and 12, joined by `-`.
pub open spec fn uuid_text(id: u128) -> Seq<char> {
    hex_digits((id / 0x1_0000_0000_0000_0000_0000_0000u128) as nat, 8) + "-"@ + hex_digits(
        (id / 0x1_0000_0000_0000_0000_0000u128) as nat,
        4,
    ) + "-"@ + hex_digits((id / 0x1_0000_0000_0000_0000u128) as nat, 4) + "-"@ + hex_digits(
        (id / 0x1_0000_0000_0000u128) as nat,
        4,
    ) + "-"@ + hex_digits(id as nat, 12)
}

/// `n` in decimal, with a leading `-` where it is negative.
pub open spec fn signed_decimal(n: int) -> Seq<char> {
    if n < 0 {
        "-"@ + decimal((-n) as nat)
    } else {
        decimal(n as nat)
    }
}

fn append_hex_digit(s: &mut String, d: u128)
    requires
        d < 16,
    ensures
        final(s)@ == old(s)@.push(hex_char(d as nat)),
{
    let digit = if d == 0 {
        "0"
    } else if d == 1 {
        "1"
    } else if d == 2 {
        "2"
    } else if d == 3 {
        "3"
    } else if d == 4 {
        "4"
    } else if d == 5 {
        "5"
    } else if d == 6 {
        "6"
    } else if d == 7 {
        "7"
    } else if d == 8 {
        "8"
    } else if d == 9 {
        "9"
    } else if d == 10 {
        "a"
    } else if d == 11 {
        "b"
    } else if d == 12 {
        "c"
    } else if d == 13 {
        "d"
    } else if d == 14 {
        "e"
    } else {
        "f"
    };
    proof {
        reveal_strlit("0");
        reveal_strlit("1");
        reveal_strlit("2");
        reveal_strlit("3");
        reveal_strlit("4");
        reveal_strlit("5");
        reveal_strlit("6");
        reveal_strlit("7");
        reveal_strlit("8");
        reveal_strlit("9");
        reveal_strlit("a");
        reveal_strlit("b");
        reveal_strlit("c");
        reveal_strlit("d");
        reveal_strlit("e");
        reveal_strlit("f");
        assert(digit@ =~= seq![hex_char(d as nat)]);
    }
    s.append(digit);
}

fn append_hex(s: &mut String, n: u128, count: u32)
    ensures
        final(s)@ == old(s)@ + hex_digits(n as nat, count as nat),
    decreases count,
{
    if count > 0 {
        append_hex(s, n / 16, count - 1);
        append_hex_digit(s, n % 16);
        proof {
            assert(old(s)@ + hex_digits(n as nat, count as nat) =~= old(s)@ + hex_digits(
                (n / 16) as nat,
                (count - 1) as nat,
            ) + seq![hex_char((n % 16) as nat)]);
        }
    } else {
        proof {
            assert(old(s)@ + hex_digits(n as nat, 0) =~= old(s)@);
        }
    }
}

/// `prefix` followed by `id` as UUID text.
pub fn text_with_uuid(prefix: &str, id: u128) -> (r: String)
    ensures
        r@ == prefix@ + uuid_text(id),
{
    let mut r = String::from_str(prefix);
    append_uuid(&mut r, id);
    r
}

/// Appends `id` as UUID text.
pub fn append_uuid(s: &mut String, id: u128)
    ensures
        final(s)@ == old(s)@ + uuid_text(id),
{
    proof {
        reveal_strlit("-");
    }
    append_hex(s, id / 0x1_0000_0000_0000_0000_0000_0000u128, 8);
    s.append("-");
    append_hex(s, id / 0x1_0000_0000_0000_0000_0000u128, 4);
    s.append("-");
    append_hex(s, id / 0x1_0000_0000_0000_0000u128, 4);
    s.append("-");
    append_hex(s, id / 0x1_0000_0000_0000u128, 4);
    s.append("-");
    append_hex(s, id, 12);
    proof {
        assert(final(s)@ =~= old(s)@ + uuid_text(id));
    }
}

/// Appends `n` in decimal, with its sign where it is negative.
pub fn append_signed_decimal(s: &mut String, n: i32)
    ensures
        final(s)@ == old(s)@ + signed_decimal(n as int),
{
    if n < 0 {
        s.append("-");
        let magnitude: u32 = (0i64 - n as i64) as u32;
        append_decimal(s, magnitude);
        proof {
            assert(final(s)@ =~= old(s)@ + signed_decimal(n as int));
        }
    } else {
        append_decimal(s, n as u32);
    }
}

} // verus!
