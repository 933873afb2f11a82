//! The kernel's standard output: text is queued here as bytes until the
//! UART driver sends it.
use vstd::prelude::*;
use vstd::string::StringSliceAdditionalSpecFns;

verus! {

/// Standard output: the bytes written and not yet sent to the UART.
pub struct Stdout {
    pending: Vec<u8>,
}

impl View for Stdout {
    type V = Seq<u8>;

    closed spec fn view(&self) -> Seq<u8> {
        self.pending@
    }
}

impl Stdout {
    /// An output with nothing queued.
    pub fn new() -> (r: Stdout)
        ensures
            r@ == Seq::<u8>::empty(),
    {
        Stdout { pending: Vec::new() }
    }

    /// Queues the UTF-8 bytes of `s`.
    pub fn write_str(&mut self, s: &str)
        ensures
            final(self)@ == old(self)@ + s.spec_bytes(),
    {
        let bytes = s.as_bytes();
        let mut i: usize = 0;
        while i < bytes.len()
            invariant
                bytes@ == s.spec_bytes(),
                i <= bytes@.len(),
                self.pending@ == old(self)@ + bytes@.subrange(0, i as int),
            decreases bytes@.len() - i,
        {
            self.pending.push(bytes[i]);
            i = i + 1;
            proof {
                assert(bytes@.subrange(0, i as int) =~= bytes@.subrange(0, i - 1) + seq![
                    bytes@[i - 1],
                ]);
            }
        }
        proof {
            assert(bytes@.subrange(0, i as int) =~= bytes@);
        }
    }

    /// Hands out the queued bytes, oldest first, and empties the queue.
    pub fn take_pending(&mut self) -> (r: Vec<u8>)
        ensures
            r@ == old(self)@,
            final(self)@ == Seq::<u8>::empty(),
    {
        let mut out: Vec<u8> = Vec::new();
        std::mem::swap(&mut out, &mut self.pending);
        out
    }
}

fn stdout_puts(out: &mut Stdout, s: &str)
    ensures
        final(out)@ == old(out)@ + s.spec_bytes(),
{
    out.write_str(s);
}

/// Prints `s` to standard output, without a newline.
pub fn print(out: &mut Stdout, s: &str)
    ensures
        final(out)@ == old(out)@ + s.spec_bytes(),
{
    stdout_puts(out, s);
}

} // verus!
