//! How tools are started: Actually Portable Executables go through the
//! shell, and `sh` launcher scripts stand in for tools that must be executed
//! directly.
use vstd::prelude::*;
use vstd::string::StringSliceAdditionalSpecFns;
use vstd::utf8::valid_utf8;
use crate::bytes::{byte_strings, bytes_eq, push_bytes, to_vec};
use crate::text::string_from_utf8;

verus! {

/// Whether the first four bytes of a file are an APE header (`MZqF` or the
/// older `jart`). Some kernels do not run these headers directly; shells do.
pub open spec fn is_ape_magic(m: Seq<u8>) -> bool {
    m == "MZqF".spec_bytes() || m == "jart".spec_bytes()
}

/// Whether the first four bytes of a file are an ELF header.
pub open spec fn is_elf_magic(m: Seq<u8>) -> bool {
    m == seq![0x7fu8, 0x45u8, 0x4cu8, 0x46u8]
}

/// A program and its leading arguments.
pub struct ToolCommand {
    pub program: Vec<u8>,
    pub args: Vec<Vec<u8>>,
}

/// The words of a command: the program, then its arguments.
pub open spec fn command_words(c: &ToolCommand) -> Seq<Seq<u8>> {
    seq![c.program@] + byte_strings(c.args@)
}

/// Whether `magic` starts an APE.
pub fn ape_magic(magic: &[u8; 4]) -> (r: bool)
    ensures
        r == is_ape_magic(magic@),
{
    bytes_eq(magic.as_slice(), "MZqF".as_bytes()) || bytes_eq(magic.as_slice(), "jart".as_bytes())
}

/// Whether `magic` starts an ELF file.
pub fn elf_magic(magic: &[u8; 4]) -> (r: bool)
    ensures
        r == is_elf_magic(magic@),
{
    let r = magic[0] == 0x7f && magic[1] == 0x45 && magic[2] == 0x4c && magic[3] == 0x46;
    assert(r == (magic@ =~= seq![0x7fu8, 0x45u8, 0x4cu8, 0x46u8]));
    r
}

/// The command that runs the tool at `path`, whose file starts with
/// `magic`: an APE runs as `/bin/sh path`, anything else directly.
pub fn tool_command(path: &[u8], magic: &[u8; 4]) -> (r: ToolCommand)
    ensures
        is_ape_magic(magic@) ==> r.program@ == "/bin/sh".spec_bytes() && byte_strings(r.args@) == seq![path@],
        !is_ape_magic(magic@) ==> r.program@ == path@ && r.args@.len() == 0,
{
    if ape_magic(magic) {
        let mut args: Vec<Vec<u8>> = Vec::new();
        args.push(to_vec(path));
        assert(byte_strings(args@) =~= seq![path@]);
        ToolCommand { program: to_vec("/bin/sh".as_bytes()), args }
    } else {
        ToolCommand { program: to_vec(path), args: Vec::new() }
    }
}

/// The byte `'`.
pub const QUOTE: u8 = 39;

/// The byte `\`.
pub const BACKSLASH: u8 = 92;

/// The escape of one byte.
pub open spec fn escape_byte(b: u8) -> Seq<u8> {
    if b == QUOTE {
        seq![QUOTE, BACKSLASH, QUOTE, QUOTE]
    } else {
        seq![b]
    }
}

/// `'` replaced by `'\''` throughout.
pub open spec fn escape_quotes(s: Seq<u8>) -> Seq<u8>
    decreases s.len(),
{
    if s.len() == 0 {
        Seq::empty()
    } else {
        escape_byte(s[0]) + escape_quotes(s.drop_first())
    }
}

/// `s` as one single-quoted `sh` word.
pub open spec fn shell_quote(s: Seq<u8>) -> Seq<u8> {
    seq![QUOTE] + escape_quotes(s) + seq![QUOTE]
}

/// Each word, preceded by a space and quoted.
pub open spec fn quoted_tail(words: Seq<Seq<u8>>) -> Seq<u8>
    decreases words.len(),
{
    if words.len() == 0 {
        Seq::empty()
    } else {
        " ".spec_bytes() + shell_quote(words[0]) + quoted_tail(words.drop_first())
    }
}

/// A launcher script that `exec`s the command with the script's own arguments.
pub open spec fn launcher_text(words: Seq<Seq<u8>>) -> Seq<u8> {
    "#!/bin/sh\nexec ".spec_bytes() + shell_quote(words[0]) + quoted_tail(words.drop_first())
        + " \"$@\"\n".spec_bytes()
}

/// Why a launcher could not be written.
#[derive(Clone, Copy, Debug, PartialEq, Eq, Structural)]
pub enum LauncherError {
    /// A word of the command is not UTF-8.
    NotUtf8,
}

impl LauncherError {
    /// The message for this refusal.
    pub fn message(&self) -> (r: Vec<u8>)
        ensures
            r@ == "tool paths must be UTF-8".spec_bytes(),
    {
        to_vec("tool paths must be UTF-8".as_bytes())
    }
}

/// Appends `s`, quoted, to `out`.
fn push_quoted(out: &mut Vec<u8>, s: &[u8])
    ensures
        final(out)@ == old(out)@ + shell_quote(s@),
{
    out.push(QUOTE);
    let ghost start = out@;
    let mut i: usize = 0;
    while i < s.len()
        invariant
            i <= s@.len(),
            out@ == start + escape_quotes(s@.subrange(0, i as int)),
        decreases s@.len() - i,
    {
        proof {
            lemma_escape_append(s@.subrange(0, i as int), s@[i as int]);
            assert(s@.subrange(0, i + 1) =~= s@.subrange(0, i as int).push(s@[i as int]));
        }
        if s[i] == QUOTE {
            out.push(QUOTE);
            out.push(BACKSLASH);
            out.push(QUOTE);
            out.push(QUOTE);
        } else {
            out.push(s[i]);
        }
        i += 1;
        assert(out@ =~= start + escape_quotes(s@.subrange(0, i as int)));
    }
    out.push(QUOTE);
    assert(s@.subrange(0, s@.len() as int) =~= s@);
    assert(out@ =~= old(out)@ + shell_quote(s@));
}

/// Escaping one more byte appends its escape.
proof fn lemma_escape_append(s: Seq<u8>, b: u8)
    ensures
        escape_quotes(s.push(b)) == escape_quotes(s) + escape_byte(b),
    decreases s.len(),
{
    let t = s.push(b);
    assert(t[0] == if s.len() == 0 { b } else { s[0] });
    if s.len() == 0 {
        assert(t.drop_first() =~= Seq::<u8>::empty());
        assert(escape_quotes(Seq::<u8>::empty()) =~= Seq::<u8>::empty());
        assert(escape_quotes(t) == escape_byte(b) + escape_quotes(t.drop_first()));
        assert(escape_quotes(t) =~= escape_quotes(s) + escape_byte(b));
    } else {
        assert(t.drop_first() =~= s.drop_first().push(b));
        lemma_escape_append(s.drop_first(), b);
        assert(escape_quotes(t) == escape_byte(s[0]) + escape_quotes(s.drop_first().push(b)));
        assert(escape_quotes(s) == escape_byte(s[0]) + escape_quotes(s.drop_first()));
        assert(escape_quotes(t) =~= escape_quotes(s) + escape_byte(b));
    }
}

/// The launcher script for `command`: `Err` exactly when a word of the
/// command is not UTF-8.
pub fn launcher_script(command: &ToolCommand) -> (r: Result<Vec<u8>, LauncherError>)
    ensures
        match r {
            Ok(text) => (forall|i: int| 0 <= i < command_words(command).len() ==> valid_utf8(
                #[trigger] command_words(command)[i],
            )) && text@ == launcher_text(command_words(command)),
            Err(_) => exists|i: int| 0 <= i < command_words(command).len() && !valid_utf8(
                #[trigger] command_words(command)[i],
            ),
        },
{
    let ghost words = command_words(command);
    if string_from_utf8(to_vec(command.program.as_slice())).is_none() {
        assert(!valid_utf8(words[0]));
        return Err(LauncherError::NotUtf8);
    }
    let mut text = to_vec("#!/bin/sh\nexec ".as_bytes());
    push_quoted(&mut text, command.program.as_slice());
    let ghost head = text@;
    let mut i: usize = 0;
    assert(words.drop_first() =~= byte_strings(command.args@));
    assert(byte_strings(command.args@).skip(0) =~= byte_strings(command.args@));
    while i < command.args.len()
        invariant
            i <= command.args@.len(),
            words == command_words(command),
            words.drop_first() == byte_strings(command.args@),
            valid_utf8(words[0]),
            forall|j: int| 0 <= j < i ==> valid_utf8(#[trigger] command.args@[j]@),
            head == "#!/bin/sh\nexec ".spec_bytes() + shell_quote(words[0]),
            head + quoted_tail(byte_strings(command.args@)) == text@ + quoted_tail(
                byte_strings(command.args@).skip(i as int),
            ),
        decreases command.args@.len() - i,
    {
        let a = command.args[i].as_slice();
        if string_from_utf8(to_vec(a)).is_none() {
            assert(!valid_utf8(words[i + 1]));
            return Err(LauncherError::NotUtf8);
        }
        let ghost before = text@;
        let ghost rest = byte_strings(command.args@).skip(i as int);
        assert(rest.drop_first() =~= byte_strings(command.args@).skip(i + 1));
        push_bytes(&mut text, " ".as_bytes());
        push_quoted(&mut text, a);
        assert(text@ + quoted_tail(byte_strings(command.args@).skip(i + 1)) =~= before + quoted_tail(rest));
        i += 1;
    }
    assert(byte_strings(command.args@).skip(i as int) =~= Seq::<Seq<u8>>::empty());
    assert(text@ + quoted_tail(Seq::<Seq<u8>>::empty()) =~= text@);
    push_bytes(&mut text, " \"$@\"\n".as_bytes());
    proof {
        assert forall|j: int| 0 <= j < words.len() implies valid_utf8(#[trigger] words[j]) by {
            if j > 0 {
                assert(words[j] == command.args@[j - 1]@);
            }
        }
    }
    Ok(text)
}

/// `b` in front of a word's value.
pub open spec fn prepend_byte(b: u8, o: Option<Seq<u8>>) -> Option<Seq<u8>> {
    match o {
        Some(x) => Some(seq![b] + x),
        None => None,
    }
}

/// `s` in front of a word's value.
pub open spec fn prepend_bytes(s: Seq<u8>, o: Option<Seq<u8>>) -> Option<Seq<u8>> {
    match o {
        Some(x) => Some(s + x),
        None => None,
    }
}

/// The value `sh` gives a word made of single-quoted runs and
/// backslash-escaped bytes, read from the start (`quoted`: inside quotes);
/// `None` for an unterminated quote or any other kind of byte outside quotes.
pub open spec fn sh_word_value(w: Seq<u8>, quoted: bool) -> Option<Seq<u8>>
    decreases w.len(),
{
    if w.len() == 0 {
        if quoted {
            None
        } else {
            Some(Seq::empty())
        }
    } else if quoted {
        if w[0] == QUOTE {
            sh_word_value(w.drop_first(), false)
        } else {
            prepend_byte(w[0], sh_word_value(w.drop_first(), true))
        }
    } else if w[0] == QUOTE {
        sh_word_value(w.drop_first(), true)
    } else if w[0] == BACKSLASH && w.len() >= 2 {
        prepend_byte(w[1], sh_word_value(w.subrange(2, w.len() as int), false))
    } else {
        None
    }
}

/// Inside quotes, an escaped run reads back as itself.
proof fn lemma_escaped_reads_back(s: Seq<u8>, t: Seq<u8>)
    ensures
        sh_word_value(escape_quotes(s) + t, true) == prepend_bytes(s, sh_word_value(t, true)),
    decreases s.len(),
{
    if s.len() == 0 {
        assert(escape_quotes(s) + t =~= t);
        match sh_word_value(t, true) {
            Some(x) => assert(s + x =~= x),
            None => {},
        }
    } else {
        let rest = s.drop_first();
        lemma_escaped_reads_back(rest, t);
        let w = escape_quotes(s) + t;
        let inner = escape_quotes(rest) + t;
        if s[0] == QUOTE {
            assert(w =~= seq![QUOTE, BACKSLASH, QUOTE, QUOTE] + inner);
            assert(w.drop_first() =~= seq![BACKSLASH, QUOTE, QUOTE] + inner);
            assert(w.drop_first().subrange(2, w.drop_first().len() as int) =~= seq![QUOTE] + inner);
            assert((seq![QUOTE] + inner).drop_first() =~= inner);
            let w1 = w.drop_first();
            let w2 = w1.subrange(2, w1.len() as int);
            assert(sh_word_value(w2, false) == sh_word_value(inner, true));
            assert(sh_word_value(w1, false) == prepend_byte(QUOTE, sh_word_value(w2, false)));
            assert(sh_word_value(w, true) == sh_word_value(w1, false));
            assert(sh_word_value(w, true) == prepend_byte(s[0], sh_word_value(inner, true)));
        } else {
            assert(w =~= seq![s[0]] + inner);
            assert(w.drop_first() =~= inner);
            assert(sh_word_value(w, true) == prepend_byte(s[0], sh_word_value(inner, true)));
        }
        match sh_word_value(t, true) {
            Some(x) => assert(seq![s[0]] + (rest + x) =~= s + x),
            None => {},
        }
    }
}

/// Quoting law: `sh` reads a quoted word back as exactly the bytes that were
/// quoted, whatever they are, so launcher scripts hand tools their paths and
/// arguments unchanged.
pub proof fn law_shell_quote_reads_back(s: Seq<u8>)
    ensures
        sh_word_value(shell_quote(s), false) == Some(s),
{
    let w = shell_quote(s);
    assert(w.drop_first() =~= escape_quotes(s) + seq![QUOTE]);
    lemma_escaped_reads_back(s, seq![QUOTE]);
    assert(seq![QUOTE].drop_first() =~= Seq::<u8>::empty());
    assert(sh_word_value(seq![QUOTE], true) == sh_word_value(Seq::<u8>::empty(), false));
    assert(s + Seq::<u8>::empty() =~= s);
}

/// Whether a file holding `existing` (`None`: unreadable) must be rewritten
/// to hold `content`; files are only written when their content changes.
pub fn needs_write(existing: &Option<Vec<u8>>, content: &[u8]) -> (r: bool)
    ensures
        r == !(existing matches Some(e) && e@ == content@),
{
    match existing {
        Some(e) => !bytes_eq(e.as_slice(), content),
        None => true,
    }
}

} // verus!
