//! Buffered console messages. The buffer and the message texts are built
//! here; actually writing them to the terminal is left to the caller, who
//! prints whatever [`Printer::flush`] hands back.

use vstd::prelude::*;
use vstd::string::StringExecFns;

verus! {

/// Collects output for the user. `flush` empties the buffer and returns its
/// contents so that the surrounding program can write them out.
pub struct Printer {
    pub buf: String,
}

impl Printer {
    /// A printer whose buffer already holds the hide-cursor control sequence,
    /// as `lock` queues it.
    pub fn new() -> (r: Printer)
        ensures
            r.buf@ == "\x1b[?25l"@,
    {
        let mut p = Printer { buf: String::new() };
        proof {
            assert(p.buf@ + "\x1b[?25l"@ =~= "\x1b[?25l"@);
        }
        p.lock();
        p
    }

    /// Queue the hide-cursor control sequence.
    pub fn lock(&mut self)
        ensures
            final(self).buf@ == old(self).buf@ + "\x1b[?25l"@,
    {
        self.buf.append("\x1b[?25l");
    }

    /// Append a message to the buffer.
    pub fn add(&mut self, s: &str)
        ensures
            final(self).buf@ == old(self).buf@ + s@,
    {
        self.buf.append(s);
    }

    /// Empty the buffer and hand back what was queued, for the caller to
    /// write to the terminal.
    pub fn flush(&mut self) -> (r: String)
        ensures
            r@ == old(self).buf@,
            final(self).buf@ == Seq::<char>::empty(),
    {
        let out = self.buf.clone();
        self.buf = String::new();
        out
    }

    /// Queue the remediation message shown when the matched handler needs a
    /// web driver and none was configured, and hand the whole buffer back.
    pub fn web_driver_req(&mut self, handler: &str) -> (r: String)
        ensures
            r@ == old(self).buf@ + handler@
                + " requires a web driver installed and running as described in the README. Please tell yaydl which port to use (yaydl --webdriver <PORT>) and try again."@,
            final(self).buf@ == Seq::<char>::empty(),
    {
        self.add(handler);
        self.add(
            " requires a web driver installed and running as described in the README. Please tell yaydl which port to use (yaydl --webdriver <PORT>) and try again.",
        );
        self.flush()
    }
}

/// The message shown when no registered handler claims the input URL.
pub fn no_site_definition_message(url: &str) -> (r: String)
    ensures
        r@ == "yaydl could not find a site definition that would satisfy "@ + url@ + ". Exiting."@,
{
    let mut out = String::from_str("yaydl could not find a site definition that would satisfy ");
    out.append(url);
    out.append(". Exiting.");
    out
}

} // verus!
