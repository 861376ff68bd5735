use vstd::prelude::*;
use vstd::utf8::{encode_scalar, encode_utf8};

use crate::resolve::{class_path, SpClass};
use crate::text::{push_char, string_with_capacity};

verus! {

/// A type as the host runtime's descriptor grammar names it.
pub enum SpType {
    Byte,
    Char,
    Double,
    Float,
    Int,
    Long,
    Short,
    Boolean,
    Void,
    Class(SpClass),
    Array(Box<SpType>),
}

/// The descriptor string of a type: one letter for a primitive, `L<path>;`
/// for a class, `[` before the element type for an array.
pub open spec fn encode(t: SpType) -> Seq<char>
    decreases t,
{
    match t {
        SpType::Byte => seq!['B'],
        SpType::Char => seq!['C'],
        SpType::Double => seq!['D'],
        SpType::Float => seq!['F'],
        SpType::Int => seq!['I'],
        SpType::Long => seq!['J'],
        SpType::Short => seq!['S'],
        SpType::Boolean => seq!['Z'],
        SpType::Void => seq!['V'],
        SpType::Class(c) => seq!['L'] + class_path(c@) + seq![';'],
        SpType::Array(inner) => seq!['['] + encode(*inner),
    }
}

/// The descriptors of `ts`, one after another.
pub open spec fn encode_all(ts: Seq<SpType>) -> Seq<char>
    decreases ts.len(),
{
    if ts.len() == 0 {
        Seq::empty()
    } else {
        encode_all(ts.drop_last()) + encode(ts.last())
    }
}

/// The signature of a method: `(`, the argument descriptors, `)`, the return descriptor.
pub open spec fn method_sig(args: Seq<SpType>, ret: SpType) -> Seq<char> {
    seq!['('] + encode_all(args) + seq![')'] + encode(ret)
}

/// The length in bytes (UTF-8) of a type's descriptor.
pub open spec fn encoded_len(t: SpType) -> nat {
    encode_utf8(encode(t)).len()
}

/// The lengths in bytes of the descriptors of `ts`, added up.
pub open spec fn sum_lens(ts: Seq<SpType>) -> nat
    decreases ts.len(),
{
    if ts.len() == 0 {
        0
    } else {
        sum_lens(ts.drop_last()) + encoded_len(ts.last())
    }
}

/// The UTF-8 bytes of two character sequences put together are their bytes put together.
pub proof fn lemma_utf8_concat(a: Seq<char>, b: Seq<char>)
    ensures
        encode_utf8(a + b) == encode_utf8(a) + encode_utf8(b),
    decreases a.len(),
{
    if a.len() == 0 {
        assert(a + b =~= b);
        assert(encode_utf8(a) + encode_utf8(b) =~= encode_utf8(b));
    } else {
        assert((a + b).drop_first() =~= a.drop_first() + b);
        assert((a + b)[0] == a[0]);
        lemma_utf8_concat(a.drop_first(), b);
        assert(encode_utf8(a + b) =~= encode_utf8(a) + encode_utf8(b));
    }
}

/// An ASCII character takes one byte.
proof fn lemma_ascii_len(c: char)
    requires
        (c as u32) <= 0x7F,
    ensures
        encode_utf8(seq![c]).len() == 1,
{
    let s = seq![c];
    assert(s.drop_first() =~= Seq::<char>::empty());
    assert(encode_utf8(s.drop_first()).len() == 0);
    assert(encode_scalar(s[0] as u32).len() == 1);
    assert(encode_utf8(s) == encode_scalar(s[0] as u32) + encode_utf8(s.drop_first()));
}

/// The bytes of the descriptors of `ts` are as many as `sum_lens` counts.
pub proof fn lemma_encode_all_len(ts: Seq<SpType>)
    ensures
        encode_utf8(encode_all(ts)).len() == sum_lens(ts),
    decreases ts.len(),
{
    if ts.len() > 0 {
        lemma_encode_all_len(ts.drop_last());
        lemma_utf8_concat(encode_all(ts.drop_last()), encode(ts.last()));
    }
}

/// A prefix of `ts` has no longer descriptors, in bytes, than all of `ts`.
pub proof fn lemma_sum_lens_prefix(ts: Seq<SpType>, i: int)
    requires
        0 <= i <= ts.len(),
    ensures
        sum_lens(ts.take(i)) <= sum_lens(ts),
    decreases ts.len(),
{
    if i < ts.len() {
        assert(ts.drop_last().take(i) =~= ts.take(i));
        lemma_sum_lens_prefix(ts.drop_last(), i);
    } else {
        assert(ts.take(i) =~= ts);
    }
}

/// The signature of a method is as long, in bytes, as two parentheses plus the
/// descriptors of its arguments and of its return type: the size that the
/// buffer of `method_signature` is given up front.
pub proof fn lemma_signature_len(args: Seq<SpType>, ret: SpType)
    ensures
        encode_utf8(method_sig(args, ret)).len() == 2 + sum_lens(args) + encoded_len(ret),
{
    lemma_ascii_len('(');
    lemma_ascii_len(')');
    lemma_encode_all_len(args);
    lemma_utf8_concat(seq!['('], encode_all(args));
    lemma_utf8_concat(seq!['('] + encode_all(args), seq![')']);
    lemma_utf8_concat(seq!['('] + encode_all(args) + seq![')'], encode(ret));
}

/// Appending one more type appends its descriptor.
proof fn lemma_encode_all_step(ts: Seq<SpType>, i: int)
    requires
        0 <= i < ts.len(),
    ensures
        encode_all(ts.take(i + 1)) == encode_all(ts.take(i)) + encode(ts[i]),
        sum_lens(ts.take(i + 1)) == sum_lens(ts.take(i)) + encoded_len(ts[i]),
{
    assert(ts.take(i + 1).drop_last() =~= ts.take(i));
}

impl SpType {
    /// The type of instances of the class named by `class` (dots or slashes).
    pub fn new_class(class: &str) -> (r: SpType)
        ensures
            r matches SpType::Class(c) && c@ == SpClass::from_sig_view(class@),
    {
        let c = SpClass::from_sig(class);
        SpType::Class(c)
    }

    /// The length in bytes of this type's descriptor.
    pub fn get_str_len(&self) -> (r: usize)
        requires
            encoded_len(*self) <= usize::MAX,
        ensures
            r == encoded_len(*self),
        decreases self,
    {
        match self {
            SpType::Class(class) => {
                let path = class.descriptor_path();
                proof {
                    lemma_ascii_len('L');
                    lemma_ascii_len(';');
                    lemma_utf8_concat(seq!['L'], path@);
                    lemma_utf8_concat(seq!['L'] + path@, seq![';']);
                }
                path.len() + 2
            },
            SpType::Array(inner) => {
                proof {
                    lemma_ascii_len('[');
                    lemma_utf8_concat(seq!['['], encode(**inner));
                }
                inner.get_str_len() + 1
            },
            _ => {
                proof {
                    lemma_ascii_len(encode(*self)[0]);
                    assert(encode(*self) =~= seq![encode(*self)[0]]);
                }
                1
            },
        }
    }

    /// Appends this type's descriptor to `out`.
    pub fn write_to(&self, out: &mut String)
        ensures
            final(out)@ == old(out)@ + encode(*self),
        decreases self,
    {
        match self {
            SpType::Byte => push_char(out, 'B'),
            SpType::Char => push_char(out, 'C'),
            SpType::Double => push_char(out, 'D'),
            SpType::Float => push_char(out, 'F'),
            SpType::Int => push_char(out, 'I'),
            SpType::Long => push_char(out, 'J'),
            SpType::Short => push_char(out, 'S'),
            SpType::Boolean => push_char(out, 'Z'),
            SpType::Void => push_char(out, 'V'),
            SpType::Class(class) => {
                push_char(out, 'L');
                out.append(class.descriptor_path());
                push_char(out, ';');
            },
            SpType::Array(inner) => {
                push_char(out, '[');
                inner.write_to(out);
            },
        }
        assert(final(out)@ =~= old(out)@ + encode(*self));
    }

    /// This type's descriptor.
    pub fn to_string(&self) -> (r: String)
        ensures
            r@ == encode(*self),
    {
        let mut out = String::new();
        self.write_to(&mut out);
        assert(out@ =~= encode(*self));
        out
    }
}

impl Default for SpType {
    fn default() -> (r: SpType)
        ensures
            r == SpType::Void,
    {
        SpType::Void
    }
}

/// The signature of a method taking `args` and returning `ret`, built in a
/// buffer sized up front from the descriptors' lengths in bytes.
pub fn method_signature(args: &[SpType], ret: &SpType) -> (r: String)
    requires
        encode_utf8(method_sig(args@, *ret)).len() <= usize::MAX,
    ensures
        r@ == method_sig(args@, *ret),
        encode_utf8(r@).len() == 2 + sum_lens(args@) + encoded_len(*ret),
{
    proof {
        lemma_signature_len(args@, *ret);
        lemma_sum_lens_prefix(args@, 0);
    }
    let mut all_len = ret.get_str_len() + 2;
    let mut i: usize = 0;
    while i < args.len()
        invariant
            i <= args@.len(),
            encode_utf8(method_sig(args@, *ret)).len() <= usize::MAX,
            encode_utf8(method_sig(args@, *ret)).len() == 2 + sum_lens(args@) + encoded_len(*ret),
            all_len == encoded_len(*ret) + 2 + sum_lens(args@.take(i as int)),
        decreases args@.len() - i,
    {
        proof {
            lemma_encode_all_step(args@, i as int);
            lemma_sum_lens_prefix(args@, i + 1);
            assert(sum_lens(args@.take(i + 1)) >= encoded_len(args@[i as int]));
        }
        all_len = all_len + args[i].get_str_len();
        i = i + 1;
    }
    let mut sig = string_with_capacity(all_len);
    push_char(&mut sig, '(');
    let mut j: usize = 0;
    while j < args.len()
        invariant
            j <= args@.len(),
            sig@ == seq!['('] + encode_all(args@.take(j as int)),
        decreases args@.len() - j,
    {
        proof {
            lemma_encode_all_step(args@, j as int);
        }
        args[j].write_to(&mut sig);
        j = j + 1;
        assert(sig@ =~= seq!['('] + encode_all(args@.take(j as int)));
    }
    assert(args@.take(args@.len() as int) =~= args@);
    push_char(&mut sig, ')');
    ret.write_to(&mut sig);
    assert(sig@ =~= method_sig(args@, *ret));
    sig
}

} // verus!
