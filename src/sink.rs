//! Appendable text sinks.
use vstd::prelude::*;

verus! {

/// Something that text can be appended to: a serial port, a buffer, a display.
///
/// Writing never fails: a sink that cannot take all of a text keeps what it
/// can and drops the rest silently.
pub trait Sink: Sized {
    /// Everything this sink holds, in the order it was written.
    spec fn text(&self) -> Seq<char>;

    /// The part of `s` that this sink, in its present state, keeps when `s`
    /// is written to it.
    spec fn kept(&self, s: Seq<char>) -> Seq<char>;

    /// Appends `s`, or as much of it as the sink keeps.
    fn write_str(&mut self, s: &str)
        ensures
            final(self).text() == old(self).text() + old(self).kept(s@),
    ;
}

/// A growable text buffer: keeps everything written to it.
pub struct TextBuffer {
    chars: Vec<char>,
}

impl TextBuffer {
    /// An empty buffer.
    pub fn new() -> (r: TextBuffer)
        ensures
            r.text() == Seq::<char>::empty(),
    {
        TextBuffer { chars: Vec::new() }
    }

    /// What has been written so far.
    pub fn as_chars(&self) -> (r: &[char])
        ensures
            r@ == self.text(),
    {
        self.chars.as_slice()
    }
}

impl Sink for TextBuffer {
    closed spec fn text(&self) -> Seq<char> {
        self.chars@
    }

    open spec fn kept(&self, s: Seq<char>) -> Seq<char> {
        s
    }

    fn write_str(&mut self, s: &str) {
        let n: usize = s.unicode_len();
        let mut i: usize = 0;
        while i < n
            invariant
                n == s@.len(),
                i <= n,
                self.chars@ == old(self).chars@ + s@.take(i as int),
            decreases n - i,
        {
            self.chars.push(s.get_char(i));
            i = i + 1;
            assert(s@.take(i as int) == s@.take((i - 1) as int).push(s@[i - 1]));
        }
        assert(s@.take(n as int) == s@);
    }
}

/// A buffer of fixed capacity: keeps what fits and drops the rest.
pub struct FixedBuffer {
    chars: Vec<char>,
    capacity: usize,
}

/// How many more characters fit into a buffer of `capacity` that holds `len`.
pub open spec fn room(capacity: nat, len: nat) -> nat {
    if len <= capacity {
        (capacity - len) as nat
    } else {
        0
    }
}

/// The first `n` characters of `s`, or all of `s` where it is shorter.
pub open spec fn prefix_upto(s: Seq<char>, n: nat) -> Seq<char> {
    if s.len() <= n {
        s
    } else {
        s.take(n as int)
    }
}

impl FixedBuffer {
    /// An empty buffer that holds at most `capacity` characters.
    pub fn new(capacity: usize) -> (r: FixedBuffer)
        ensures
            r.text() == Seq::<char>::empty(),
            r.capacity() == capacity,
    {
        FixedBuffer { chars: Vec::new(), capacity }
    }

    /// The most characters this buffer holds.
    pub closed spec fn capacity(&self) -> nat {
        self.capacity as nat
    }

    /// What has been written so far.
    pub fn as_chars(&self) -> (r: &[char])
        ensures
            r@ == self.text(),
    {
        self.chars.as_slice()
    }
}

impl Sink for FixedBuffer {
    closed spec fn text(&self) -> Seq<char> {
        self.chars@
    }

    open spec fn kept(&self, s: Seq<char>) -> Seq<char> {
        prefix_upto(s, room(self.capacity(), self.text().len()))
    }

    fn write_str(&mut self, s: &str)
        ensures
            final(self).capacity() == old(self).capacity(),
    {
        let n: usize = s.unicode_len();
        let mut i: usize = 0;
        while i < n && self.chars.len() < self.capacity
            invariant
                n == s@.len(),
                i <= n,
                self.capacity == old(self).capacity,
                old(self).chars.len() < self.capacity ==> self.chars.len() <= self.capacity,
                old(self).chars.len() >= self.capacity ==> i == 0,
                self.chars.len() == old(self).chars.len() + i,
                self.chars@ == old(self).chars@ + s@.take(i as int),
            decreases n - i,
        {
            self.chars.push(s.get_char(i));
            i = i + 1;
            assert(s@.take(i as int) == s@.take((i - 1) as int).push(s@[i - 1]));
        }
        assert(s@.take(n as int) == s@);
        assert(s@.take(0) == Seq::<char>::empty());
        let ghost r = room(old(self).capacity(), old(self).text().len());
        assert(i == n || i == r);
        assert(i <= r);
        assert(old(self).kept(s@) == s@.take(i as int));
    }
}

} // verus!
