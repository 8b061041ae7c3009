use vstd::prelude::*;
use vstd::string::StringExecFns;

verus! {

/// A typed field value, already reduced to plain data. Values that were
/// only debug-printable, and error values, arrive as their rendered text.
pub enum FieldValue {
    I64(i64),
    U64(u64),
    I128(i128),
    U128(u128),
    Bool(bool),
    Text(String),
    Debug(String),
    ErrorText(String),
}

/// One named field of a record.
pub struct Field {
    pub key: String,
    pub value: FieldValue,
}

/// The digit character for one decimal digit.
pub open spec fn digit_char(d: nat) -> char {
    if d == 0 {
        '0'
    } else if d == 1 {
        '1'
    } else if d == 2 {
        '2'
    } else if d == 3 {
        '3'
    } else if d == 4 {
        '4'
    } else if d == 5 {
        '5'
    } else if d == 6 {
        '6'
    } else if d == 7 {
        '7'
    } else if d == 8 {
        '8'
    } else {
        '9'
    }
}

/// Decimal representation of a natural number, without sign or padding.
pub open spec fn dec_rep(n: nat) -> Seq<char>
    decreases n,
{
    if n < 10 {
        seq![digit_char(n)]
    } else {
        dec_rep(n / 10).push(digit_char(n % 10))
    }
}

/// Decimal representation of an integer: a leading minus sign when negative.
pub open spec fn int_rep(i: int) -> Seq<char> {
    if i < 0 {
        "-"@ + dec_rep((-i) as nat)
    } else {
        dec_rep(i as nat)
    }
}

/// Display text of a boolean.
pub open spec fn bool_rep(b: bool) -> Seq<char> {
    if b {
        "true"@
    } else {
        "false"@
    }
}

/// Display text of a field value.
pub open spec fn rendered(v: FieldValue) -> Seq<char> {
    match v {
        FieldValue::I64(n) => int_rep(n as int),
        FieldValue::U64(n) => dec_rep(n as nat),
        FieldValue::I128(n) => int_rep(n as int),
        FieldValue::U128(n) => dec_rep(n as nat),
        FieldValue::Bool(b) => bool_rep(b),
        FieldValue::Text(s) => s@,
        FieldValue::Debug(s) => s@,
        FieldValue::ErrorText(s) => s@,
    }
}

/// Returns the one-character string for a decimal digit.
fn digit_str(d: u128) -> (r: &'static str)
    requires
        d < 10,
    ensures
        r@ == seq![digit_char(d as nat)],
{
    let r: &'static str = match d {
        0 => "0",
        1 => "1",
        2 => "2",
        3 => "3",
        4 => "4",
        5 => "5",
        6 => "6",
        7 => "7",
        8 => "8",
        _ => "9",
    };
    proof {
        reveal_strlit("0");
        reveal_strlit("1");
        reveal_strlit("2");
        reveal_strlit("3");
        reveal_strlit("4");
        reveal_strlit("5");
        reveal_strlit("6");
        reveal_strlit("7");
        reveal_strlit("8");
        reveal_strlit("9");
        assert(r@ =~= seq![digit_char(d as nat)]);
    }
    r
}

/// Appends the decimal representation of `n` to `s`.
pub fn push_dec_u128(s: &mut String, n: u128)
    ensures
        final(s)@ == old(s)@ + dec_rep(n as nat),
    decreases n,
{
    if n >= 10 {
        push_dec_u128(s, n / 10);
    }
    s.append(digit_str(n % 10));
    proof {
        assert(final(s)@ =~= old(s)@ + dec_rep(n as nat));
    }
}

/// Appends the decimal representation of `n` to `s`, sign included.
pub fn push_dec_i128(s: &mut String, n: i128)
    ensures
        final(s)@ == old(s)@ + int_rep(n as int),
{
    if n < 0 {
        s.append("-");
        let mag: u128 = ((-(n + 1)) as u128) + 1;
        assert(mag as int == -(n as int));
        push_dec_u128(s, mag);
        proof {
            assert(final(s)@ =~= old(s)@ + int_rep(n as int));
        }
    } else {
        push_dec_u128(s, n as u128);
    }
}

/// Appends the display text of `v` to `s`.
pub fn push_value(s: &mut String, v: &FieldValue)
    ensures
        final(s)@ == old(s)@ + rendered(*v),
{
    match v {
        FieldValue::I64(n) => push_dec_i128(s, *n as i128),
        FieldValue::U64(n) => push_dec_u128(s, *n as u128),
        FieldValue::I128(n) => push_dec_i128(s, *n),
        FieldValue::U128(n) => push_dec_u128(s, *n),
        FieldValue::Bool(b) => {
            if *b {
                s.append("true");
            } else {
                s.append("false");
            }
        },
        FieldValue::Text(t) => s.append(t.as_str()),
        FieldValue::Debug(t) => s.append(t.as_str()),
        FieldValue::ErrorText(t) => s.append(t.as_str()),
    }
}

/// The primary message after folding in every field named `message`:
/// their display texts are appended, in declaration order.
pub open spec fn fold_message(base: Seq<char>, fields: Seq<Field>) -> Seq<char>
    decreases fields.len(),
{
    if fields.len() == 0 {
        base
    } else {
        let prev = fold_message(base, fields.drop_last());
        let f = fields.last();
        if f.key@ == "message"@ {
            prev + rendered(f.value)
        } else {
            prev
        }
    }
}

/// The args text: every field not named `message` rendered as `key=value`,
/// in declaration order, joined by single spaces.
pub open spec fn args_rep(fields: Seq<Field>) -> Seq<char>
    decreases fields.len(),
{
    if fields.len() == 0 {
        Seq::<char>::empty()
    } else {
        let prev = args_rep(fields.drop_last());
        let f = fields.last();
        if f.key@ == "message"@ {
            prev
        } else if prev.len() == 0 {
            f.key@ + "="@ + rendered(f.value)
        } else {
            prev + " "@ + f.key@ + "="@ + rendered(f.value)
        }
    }
}

/// Builds the `(message, args)` pair of a record from the primary message
/// and the declared fields; the args text is absent when no field other
/// than `message` was supplied.
pub fn format_record(message: &str, fields: &Vec<Field>) -> (r: (String, Option<String>))
    ensures
        r.0@ == fold_message(message@, fields@),
        match r.1 {
            Some(a) => a@ == args_rep(fields@) && args_rep(fields@).len() > 0,
            None => args_rep(fields@).len() == 0,
        },
{
    let mut msg = message.to_owned();
    let mut args = String::new();
    let mkey = "message".to_owned();
    let n = fields.len();
    let mut i: usize = 0;
    while i < n
        invariant
            i <= n,
            n == fields@.len(),
            mkey@ == "message"@,
            msg@ == fold_message(message@, fields@.take(i as int)),
            args@ == args_rep(fields@.take(i as int)),
        decreases n - i,
    {
        let f = &fields[i];
        if f.key == mkey {
            push_value(&mut msg, &f.value);
        } else {
            if !args.as_str().is_empty() {
                args.append(" ");
            }
            args.append(f.key.as_str());
            args.append("=");
            push_value(&mut args, &f.value);
        }
        proof {
            assert(fields@.take(i + 1 as int).drop_last() =~= fields@.take(i as int));
            assert(fields@.take(i + 1 as int).last() == fields@[i as int]);
            assert(msg@ =~= fold_message(message@, fields@.take(i + 1 as int)));
            assert(args@ =~= args_rep(fields@.take(i + 1 as int)));
        }
        i += 1;
    }
    proof {
        assert(fields@.take(n as int) =~= fields@);
    }
    if args.as_str().is_empty() {
        (msg, None)
    } else {
        (msg, Some(args))
    }
}

} // verus!
