use crate::error::{Error, Result};
use crate::text::{c_string, nul_free};
use vstd::prelude::*;
use vstd::slice::slice_to_vec;
use vstd::utf8::encode_utf8;

verus! {

/// The byte that separates the tokens of a command line.
pub const SPACE: u8 = 32;

/// The byte that encloses a quoted token.
pub const QUOTE: u8 = 34;

/// The byte of a minus sign.
pub const MINUS: u8 = 45;

/// The byte of the digit 0.
pub const ZERO: u8 = 48;

/// Tokens joined by single spaces, with no separator before the first or after
/// the last.
pub open spec fn join_tokens(t: Seq<Seq<u8>>) -> Seq<u8>
    decreases t.len(),
{
    if t.len() == 0 {
        seq![]
    } else if t.len() == 1 {
        t[0]
    } else {
        join_tokens(t.drop_last()) + seq![SPACE] + t.last()
    }
}

/// A token enclosed in double quotes, so that the native parser reads spaces
/// inside it as part of it.
pub open spec fn quoted(b: Seq<u8>) -> Seq<u8> {
    seq![QUOTE] + b + seq![QUOTE]
}

/// The decimal digits of `n`, most significant first, without leading zeros.
pub open spec fn digits(n: nat) -> Seq<u8>
    decreases n,
{
    if n < 10 {
        seq![(ZERO + n) as u8]
    } else {
        digits(n / 10).push((ZERO + n % 10) as u8)
    }
}

/// The decimal text of `n`, with a minus sign when it is negative.
pub open spec fn decimal(n: int) -> Seq<u8> {
    if n < 0 {
        seq![MINUS] + digits((-n) as nat)
    } else {
        digits(n as nat)
    }
}

/// The UTF-8 bytes of each text.
pub open spec fn utf8_tokens(t: Seq<&str>) -> Seq<Seq<u8>> {
    t.map_values(|a: &str| encode_utf8(a@))
}

/// The tokens of the command `name` with the arguments `args`.
pub open spec fn command_tokens(name: &str, args: Seq<&str>) -> Seq<Seq<u8>> {
    seq![encode_utf8(name@)] + utf8_tokens(args)
}

fn push_digits(out: &mut Vec<u8>, n: u128)
    ensures
        final(out)@ == old(out)@ + digits(n as nat),
    decreases n,
{
    if n >= 10 {
        push_digits(out, n / 10);
    }
    out.push(ZERO + (n % 10) as u8);
}

/// The tokens of one command line: the command's name, then its arguments.
///
/// The builder only joins tokens: it neither escapes nor checks them. Quoting a
/// path that may hold spaces is the caller's choice, through `quoted`.
pub struct CommandArgs {
    tokens: Vec<Vec<u8>>,
}

impl View for CommandArgs {
    type V = Seq<Seq<u8>>;

    closed spec fn view(&self) -> Seq<Seq<u8>> {
        self.tokens@.map_values(|t: Vec<u8>| t@)
    }
}

impl CommandArgs {
    /// A command line that holds only the name.
    pub fn new(name: &str) -> (r: CommandArgs)
        ensures
            r@ == seq![encode_utf8(name@)],
    {
        let mut tokens: Vec<Vec<u8>> = Vec::new();
        tokens.push(slice_to_vec(name.as_bytes()));
        let r = CommandArgs { tokens };
        assert(r@ =~= seq![encode_utf8(name@)]);
        r
    }

    fn push_token(&mut self, t: Vec<u8>)
        ensures
            final(self)@ == old(self)@.push(t@),
    {
        self.tokens.push(t);
        assert(final(self)@ =~= old(self)@.push(t@));
    }

    /// Appends `a` as it stands.
    pub fn arg(&mut self, a: &str)
        ensures
            final(self)@ == old(self)@.push(encode_utf8(a@)),
    {
        self.push_token(slice_to_vec(a.as_bytes()));
    }

    /// Appends `a` enclosed in double quotes.
    pub fn quoted(&mut self, a: &str)
        ensures
            final(self)@ == old(self)@.push(quoted(encode_utf8(a@))),
    {
        let mut t: Vec<u8> = Vec::new();
        t.push(QUOTE);
        let mut body = slice_to_vec(a.as_bytes());
        t.append(&mut body);
        t.push(QUOTE);
        assert(t@ =~= quoted(encode_utf8(a@)));
        self.push_token(t);
    }

    /// Appends the decimal text of `n`.
    pub fn unsigned(&mut self, n: u128)
        ensures
            final(self)@ == old(self)@.push(decimal(n as int)),
    {
        let mut t: Vec<u8> = Vec::new();
        push_digits(&mut t, n);
        assert(t@ =~= decimal(n as int));
        self.push_token(t);
    }

    /// Appends the decimal text of `n`, with a minus sign when it is negative.
    pub fn signed(&mut self, n: i128)
        ensures
            final(self)@ == old(self)@.push(decimal(n as int)),
    {
        let mut t: Vec<u8> = Vec::new();
        if n < 0 {
            t.push(MINUS);
            let m: u128 = (-(n + 1)) as u128 + 1;
            push_digits(&mut t, m);
        } else {
            push_digits(&mut t, n as u128);
        }
        assert(t@ =~= decimal(n as int));
        self.push_token(t);
    }

    /// The command line: the tokens joined by single spaces.
    pub fn text(&self) -> (r: Vec<u8>)
        ensures
            r@ == join_tokens(self@),
    {
        let mut out: Vec<u8> = Vec::new();
        let mut i: usize = 0;
        while i < self.tokens.len()
            invariant
                i <= self@.len(),
                self@.len() == self.tokens@.len(),
                out@ == join_tokens(self@.take(i as int)),
            decreases self.tokens@.len() - i,
        {
            proof {
                assert(self@[i as int] == self.tokens@[i as int]@);
                assert(self@.take(i as int + 1).drop_last() =~= self@.take(i as int));
            }
            if i > 0 {
                out.push(SPACE);
            }
            let mut t = self.tokens[i].clone();
            out.append(&mut t);
            i += 1;
        }
        assert(self@.take(i as int) =~= self@);
        out
    }

    /// The command line as the C string that the native command entry point
    /// reads; a line that holds a NUL byte fails with `Null`.
    pub fn buffer(&self) -> (r: Result<Vec<u8>>)
        ensures
            nul_free(join_tokens(self@)) ==> (r matches Ok(v) && v@ == join_tokens(self@).push(0)),
            !nul_free(join_tokens(self@)) ==> r == Err::<Vec<u8>, Error>(Error::Null),
    {
        let t = self.text();
        c_string(t.as_slice())
    }
}

/// The C string of the command `name` with the arguments `args`, joined by
/// single spaces: the one buffer that the native command entry point reads.
/// Fails with `Null` when the line holds a NUL byte.
pub fn command_buffer(name: &str, args: &[&str]) -> (r: Result<Vec<u8>>)
    ensures
        nul_free(join_tokens(command_tokens(name, args@))) ==> (r matches Ok(v) && v@ == join_tokens(
            command_tokens(name, args@),
        ).push(0)),
        !nul_free(join_tokens(command_tokens(name, args@))) ==> r == Err::<Vec<u8>, Error>(
            Error::Null,
        ),
{
    let mut cmd = CommandArgs::new(name);
    let mut i: usize = 0;
    while i < args.len()
        invariant
            i <= args@.len(),
            cmd@ == command_tokens(name, args@.take(i as int)),
        decreases args@.len() - i,
    {
        cmd.arg(args[i]);
        i += 1;
        assert(cmd@ =~= command_tokens(name, args@.take(i as int)));
    }
    assert(args@.take(i as int) =~= args@);
    cmd.buffer()
}

/// A command without arguments is its name alone, with no trailing space; each
/// argument adds one space and its own bytes after what came before.
pub proof fn lemma_command_text_shape(name: Seq<u8>, args: Seq<Seq<u8>>)
    ensures
        join_tokens(seq![name]) == name,
        args.len() > 0 ==> join_tokens(seq![name] + args) == join_tokens(seq![name] + args.drop_last())
            + seq![SPACE] + args.last(),
{
    if args.len() > 0 {
        assert((seq![name] + args).drop_last() =~= seq![name] + args.drop_last());
    }
}

} // verus!
