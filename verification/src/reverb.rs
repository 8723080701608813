//! The delay line that the reverb is built from.

use vstd::prelude::*;

verus! {

/// Delay-line whose size is fixed: it keeps the last `N` values written to
/// it.
///
/// The values are handed on as they are, so the line can delay whatever the
/// caller computes with.
#[derive(Clone, Debug)]
pub struct DelayLine<T, const N: usize> {
    pos: usize,
    buffer: Vec<T>,
}

/// The place in the buffer of the value that is `age` places behind the
/// oldest.
pub open spec fn place(pos: int, age: int, size: int) -> int {
    if pos + age < size {
        pos + age
    } else {
        pos + age - size
    }
}

impl<T: Copy, const N: usize> DelayLine<T, N> {
    /// The buffer has its size and the position lies in it.
    pub closed spec fn wf(&self) -> bool {
        self.pos < N && self.buffer@.len() == N
    }

    /// The place in the buffer that is written next.
    pub closed spec fn position(&self) -> int {
        self.pos as int
    }

    /// The values in the line, the oldest first.
    pub closed spec fn view(&self) -> Seq<T> {
        Seq::new(N as nat, |age: int| self.buffer@[place(self.pos as int, age, N as int)])
    }

    /// A delay line full of `fill`.
    pub fn new(fill: T) -> (line: Self)
        requires
            N > 0,
        ensures
            line.wf(),
            line.position() == 0,
            line@ == Seq::new(N as nat, |age: int| fill),
    {
        let mut buffer: Vec<T> = Vec::new();
        while buffer.len() < N
            invariant
                buffer.len() <= N,
                forall|i: int| 0 <= i < buffer.len() ==> buffer[i] == fill,
            decreases N - buffer.len(),
        {
            buffer.push(fill);
        }
        let line = DelayLine { pos: 0, buffer };
        assert(line@ =~= Seq::new(N as nat, |age: int| fill));
        line
    }

    /// Get element at back: the one that follows the oldest.
    pub fn back(&self) -> (value: T)
        requires
            self.wf(),
        ensures
            value == self@[if N > 1 {
                1int
            } else {
                0int
            }],
    {
        let idx = self.index_back();
        self.buffer[idx]
    }

    /// Get index of back element.
    pub fn index_back(&self) -> (index: usize)
        requires
            self.wf(),
        ensures
            index == place(self.position(), 1, N as int),
            index < N,
    {
        let i = self.pos + 1;
        if i < N {
            i
        } else {
            0
        }
    }

    /// Read value at delay i: the value written `i` writes ago, the oldest
    /// for 0 as for `N`.
    pub fn read(&self, i: i32) -> (value: &T)
        requires
            self.wf(),
            0 <= i <= N,
        ensures
            *value == self@[if i == 0 {
                0int
            } else {
                N - i
            }],
    {
        let delay: usize = i as usize;
        let idx: usize = if delay <= self.pos {
            self.pos - delay
        } else {
            self.pos + (N - delay)
        };
        proof {
            let age: int = if i == 0 {
                0int
            } else {
                N - i
            };
            assert(idx == place(self.pos as int, age, N as int)) by {
                if i == 0 {
                } else if delay <= self.pos {
                    assert(self.pos + (N - i) >= N);
                } else {
                }
            }
        }
        &self.buffer[idx]
    }

    /// Write value to delay: the oldest value makes room for it.
    pub fn write(&mut self, value: T)
        requires
            old(self).wf(),
        ensures
            final(self).wf(),
            final(self)@ == old(self)@.drop_first().push(value),
            final(self).position() == place(old(self).position(), 1, N as int),
    {
        let ghost before = *self;
        self.buffer.set(self.pos, value);
        self.pos += 1;
        if self.pos >= N {
            self.pos = 0;
        }
        proof {
            assert forall|age: int| 0 <= age < N implies #[trigger] self@[age]
                == before@.drop_first().push(value)[age] by {
                if age < N - 1 {
                    assert(place(self.pos as int, age, N as int) == place(
                        before.pos as int,
                        age + 1,
                        N as int,
                    ));
                    assert(before@.drop_first()[age] == before@[age + 1]);
                } else {
                    assert(place(self.pos as int, age, N as int) == before.pos);
                }
            }
            assert(self@ =~= before@.drop_first().push(value));
        }
    }

    /// Write new value and return oldest value
    pub fn get_write_and_step(&mut self, value: T) -> (oldest: T)
        requires
            old(self).wf(),
        ensures
            final(self).wf(),
            oldest == old(self)@[0],
            final(self)@ == old(self)@.drop_first().push(value),
            final(self).position() == place(old(self).position(), 1, N as int),
    {
        let r = self.buffer[self.pos];
        self.write(value);
        r
    }
}

} // verus!
