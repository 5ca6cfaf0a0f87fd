//! The writer of resource definitions: a growing buffer of bytes and the
//! current depth of nesting, which decides how far a line is indented.

use crate::util::{escape, escaped};
use vstd::prelude::*;
use vstd::utf8::encode_utf8;

verus! {

/// The deepest level of indentation. Blocks nested deeper are indented as
/// this level is.
pub const MAX_LEVEL: usize = 8;

/// `n` tab characters.
pub open spec fn tabs(n: nat) -> Seq<char> {
    Seq::new(n, |i: int| '\t')
}

/// The level that follows `level` when it changes by `delta`: never below
/// zero, never above [`MAX_LEVEL`].
pub open spec fn changed_level(level: nat, delta: int) -> nat {
    if level + delta < 0 {
        0
    } else if level + delta > MAX_LEVEL {
        MAX_LEVEL as nat
    } else {
        (level + delta) as nat
    }
}

/// What a writer holds: the level of indentation and the bytes written.
pub ghost struct WriterState {
    pub level: nat,
    pub bytes: Seq<u8>,
}

impl WriterState {
    /// A new writer's state: the line that declares the code page UTF-8, at
    /// level zero.
    pub open spec fn fresh() -> WriterState {
        WriterState { level: 0, bytes: encode_utf8("#pragma code_page(65001)\n"@) }
    }

    /// The state after `text` is written as it is.
    pub open spec fn put(self, text: Seq<char>) -> WriterState {
        WriterState { level: self.level, bytes: self.bytes + encode_utf8(text) }
    }

    /// The state after the indentation of the current level is written.
    pub open spec fn pad(self) -> WriterState {
        self.put(tabs(self.level))
    }

    /// The state at another level, with the same bytes.
    pub open spec fn shift(self, delta: int) -> WriterState {
        WriterState { level: changed_level(self.level, delta), bytes: self.bytes }
    }

    /// The state after a bare line break.
    pub open spec fn new_line(self) -> WriterState {
        self.put("\n"@)
    }

    /// The state after one indented line.
    pub open spec fn line(self, text: Seq<char>) -> WriterState {
        self.pad().put(text).new_line()
    }

    /// The state after an opening brace: the brace stands at the current
    /// level, what follows one level deeper.
    pub open spec fn begin(self) -> WriterState {
        self.pad().shift(1).put("{\n"@)
    }

    /// The state after a closing brace: the brace stands one level up, and
    /// so does what follows.
    pub open spec fn end(self) -> WriterState {
        self.shift(-1).pad().put("}\n"@)
    }

    /// The state after the header of a named block and its opening brace.
    pub open spec fn block(self, name: Seq<char>) -> WriterState {
        self.pad().put("BLOCK \""@).put(name).put("\"\n"@).begin()
    }

    /// The state after a value whose text is quoted and escaped.
    pub open spec fn value_str(self, name: Seq<char>, value: Seq<char>) -> WriterState {
        self.pad().put("VALUE \""@).put(name).put("\", \""@).put(escaped(value)).put("\"\n"@)
    }

    /// The state after a value that is written as it is.
    pub open spec fn value_raw(self, name: Seq<char>, value: Seq<char>) -> WriterState {
        self.pad().put("VALUE \""@).put(name).put("\", "@).put(value).new_line()
    }

    /// The state after a sequence of braces: `true` opens one, `false`
    /// closes one.
    pub open spec fn braces(self, ops: Seq<bool>) -> WriterState
        decreases ops.len(),
    {
        if ops.len() == 0 {
            self
        } else if ops.last() {
            self.braces(ops.drop_last()).begin()
        } else {
            self.braces(ops.drop_last()).end()
        }
    }
}

/// How many more braces a sequence opens than it closes.
pub open spec fn excess(ops: Seq<bool>) -> int
    decreases ops.len(),
{
    if ops.len() == 0 {
        0
    } else if ops.last() {
        excess(ops.drop_last()) + 1
    } else {
        excess(ops.drop_last()) - 1
    }
}

/// Whether a sequence of braces, begun at `level`, closes no brace that it
/// did not open and opens none beyond the deepest level.
pub open spec fn nests_within(ops: Seq<bool>, level: nat) -> bool {
    forall|k: int| 0 <= k <= ops.len() ==> 0 <= #[trigger] excess(ops.take(k)) && level + excess(
        ops.take(k),
    ) <= MAX_LEVEL
}

/// Writing two texts one after the other is writing their concatenation.
pub proof fn lemma_put_twice(w: WriterState, a: Seq<char>, b: Seq<char>)
    ensures
        w.put(a).put(b) == w.put(a + b),
{
    crate::text::lemma_utf8_concat(a, b);
    assert(w.bytes + encode_utf8(a) + encode_utf8(b) == w.bytes + (encode_utf8(a) + encode_utf8(
        b,
    )));
}

/// Whatever braces are written, and however deep they nest, the level stays
/// within the deepest level.
pub proof fn lemma_level_bounded(w: WriterState, ops: Seq<bool>)
    requires
        w.level <= MAX_LEVEL,
    ensures
        w.braces(ops).level <= MAX_LEVEL,
    decreases ops.len(),
{
    if ops.len() > 0 {
        lemma_level_bounded(w, ops.drop_last());
    }
}

/// While a sequence of braces nests within the deepest level, the level
/// after it is the level before it plus the braces still open.
pub proof fn lemma_level_follows(w: WriterState, ops: Seq<bool>)
    requires
        nests_within(ops, w.level),
    ensures
        w.braces(ops).level == w.level + excess(ops),
    decreases ops.len(),
{
    assert(ops.take(ops.len() as int) == ops);
    if ops.len() > 0 {
        let front = ops.drop_last();
        assert forall|k: int| 0 <= k <= front.len() implies 0 <= #[trigger] excess(front.take(k))
            && w.level + excess(front.take(k)) <= MAX_LEVEL by {
            assert(front.take(k) == ops.take(k));
        }
        lemma_level_follows(w, front);
        assert(front == ops.take(ops.len() - 1));
    }
}

/// After braces that match, none of them nested beyond the deepest level,
/// the indentation is what it was before them.
pub proof fn lemma_matched_braces_restore_level(w: WriterState, ops: Seq<bool>)
    requires
        nests_within(ops, w.level),
        excess(ops) == 0,
    ensures
        w.braces(ops).level == w.level,
{
    lemma_level_follows(w, ops);
}

/// A level of indentation.
#[derive(Clone, Copy)]
struct Depth {
    value: usize,
}

impl Depth {
    #[verifier::type_invariant]
    spec fn within(self) -> bool {
        self.value <= MAX_LEVEL
    }

    closed spec fn view(&self) -> nat {
        self.value as nat
    }

    fn zero() -> (r: Depth)
        ensures
            r@ == 0,
    {
        Depth { value: 0 }
    }

    fn get(&self) -> (r: usize)
        ensures
            r == self@,
            r <= MAX_LEVEL,
    {
        proof {
            use_type_invariant(self);
        }
        self.value
    }

    fn changed(self, delta: isize) -> (r: Depth)
        ensures
            r@ == changed_level(self@, delta as int),
    {
        proof {
            use_type_invariant(&self);
        }
        if delta < -8 {
            Depth { value: 0 }
        } else if delta > 8 {
            Depth { value: MAX_LEVEL }
        } else {
            let moved: isize = (self.value as isize) + delta;
            if moved < 0 {
                Depth { value: 0 }
            } else if moved > 8 {
                Depth { value: MAX_LEVEL }
            } else {
                Depth { value: moved as usize }
            }
        }
    }
}

/// Writes resource definitions into a buffer, line by line, indenting each
/// line by the depth of the blocks around it.
pub struct ResWriter {
    level: Depth,
    buffer: Vec<u8>,
}

impl View for ResWriter {
    type V = WriterState;

    closed spec fn view(&self) -> WriterState {
        WriterState { level: self.level@, bytes: self.buffer@ }
    }
}

impl ResWriter {
    /// A writer that holds the line declaring the code page UTF-8.
    pub fn new() -> (r: ResWriter)
        ensures
            r@ == WriterState::fresh(),
    {
        let mut writer = ResWriter { level: Depth::zero(), buffer: Vec::with_capacity(2048) };
        writer.put("#pragma code_page(65001)\n");
        proof {
            assert(writer.buffer@ =~= encode_utf8("#pragma code_page(65001)\n"@));
        }
        writer
    }

    /// The bytes written so far.
    pub fn as_bytes(&self) -> (r: &[u8])
        ensures
            r@ == self@.bytes,
    {
        self.buffer.as_slice()
    }

    /// The bytes written, taken out of the writer.
    pub fn into_bytes(self) -> (r: Vec<u8>)
        ensures
            r@ == self@.bytes,
    {
        self.buffer
    }

    /// The current level of indentation, which never exceeds
    /// [`MAX_LEVEL`].
    pub fn level(&self) -> (r: usize)
        ensures
            r == self@.level,
            r <= MAX_LEVEL,
    {
        self.level.get()
    }

    /// Writes one line at the current indentation.
    pub fn line(&mut self, line: &str)
        ensures
            final(self)@ == old(self)@.line(line@),
    {
        self.add_padding();
        self.put(line);
        self.new_line();
    }

    /// Writes a bare line break.
    pub fn new_line(&mut self)
        ensures
            final(self)@ == old(self)@.new_line(),
    {
        self.put("\n");
    }

    /// Opens a brace and indents what follows by one more level, up to
    /// [`MAX_LEVEL`].
    pub fn begin(&mut self)
        ensures
            final(self)@ == old(self)@.begin(),
            final(self)@.level <= MAX_LEVEL,
    {
        self.add_padding();
        self.change_level(1);
        self.put("{\n");
    }

    /// Takes one level of indentation back and closes a brace.
    pub fn end(&mut self)
        ensures
            final(self)@ == old(self)@.end(),
            final(self)@.level <= MAX_LEVEL,
    {
        self.change_level(-1);
        self.add_padding();
        self.put("}\n");
    }

    /// Opens a named block.
    pub fn block(&mut self, name: &str)
        ensures
            final(self)@ == old(self)@.block(name@),
            final(self)@.level <= MAX_LEVEL,
    {
        self.add_padding();
        self.put("BLOCK \"");
        self.put(name);
        self.put("\"\n");
        self.begin();
    }

    /// Writes a named value as a quoted string, escaped.
    pub fn value_str(&mut self, name: &str, value: &str)
        ensures
            final(self)@ == old(self)@.value_str(name@, value@),
    {
        self.add_padding();
        self.put("VALUE \"");
        self.put(name);
        self.put("\", \"");
        let text = escape(value);
        self.put(text.as_str());
        self.put("\"\n");
    }

    /// Writes a named value as it is, for numbers that are already in the
    /// form the compiler reads.
    pub fn value_raw(&mut self, name: &str, value: &str)
        ensures
            final(self)@ == old(self)@.value_raw(name@, value@),
    {
        self.add_padding();
        self.put("VALUE \"");
        self.put(name);
        self.put("\", ");
        self.put(value);
        self.new_line();
    }

    fn put(&mut self, text: &str)
        ensures
            final(self)@ == old(self)@.put(text@),
    {
        self.buffer.extend_from_slice(text.as_bytes());
        proof {
            assert(final(self).buffer@ =~= old(self).buffer@ + encode_utf8(text@));
        }
    }

    fn change_level(&mut self, delta: isize)
        ensures
            final(self)@ == old(self)@.shift(delta as int),
            final(self)@.level <= MAX_LEVEL,
    {
        self.level = self.level.changed(delta);
    }

    fn add_padding(&mut self)
        ensures
            final(self)@ == old(self)@.pad(),
    {
        let level = self.level.get();
        let mut i: usize = 0;
        while i < level
            invariant
                i <= level,
                level == old(self).level@,
                self.level == old(self).level,
                self.buffer@ == old(self).buffer@ + Seq::new(i as nat, |k: int| 9u8),
            decreases level - i,
        {
            self.buffer.push(9u8);
            i = i + 1;
            proof {
                assert(self.buffer@ =~= old(self).buffer@ + Seq::new(i as nat, |k: int| 9u8));
            }
        }
        proof {
            let t = tabs(level as nat);
            assert(vstd::utf8::is_ascii_chars(t));
            vstd::utf8::is_ascii_chars_encode_utf8(t);
            assert(encode_utf8(t) =~= Seq::new(level as nat, |k: int| 9u8));
        }
    }
}

impl Default for ResWriter {
    fn default() -> (r: ResWriter)
        ensures
            r@ == WriterState::fresh(),
    {
        ResWriter::new()
    }
}

} // verus!
