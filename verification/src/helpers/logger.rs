use vstd::prelude::*;
use vstd::string::StrSliceExecFns;

verus! {

/// The views of the recorded messages, oldest first.
pub open spec fn views_of(v: Seq<String>) -> Seq<Seq<char>> {
    v.map_values(|m: String| m@)
}

/// Logging capability injected into the controller and the scheduler.
///
/// Logging is side-effect-only: the one thing a caller may rely on is that a
/// method appends its message to the record and touches nothing else.
pub trait Logger {
    /// Messages recorded so far, oldest first.
    spec fn recorded(&self) -> Seq<Seq<char>>;

    fn log(&mut self, message: &str)
        ensures
            final(self).recorded() == old(self).recorded().push(message@),
    ;

    fn error(&mut self, message: &str)
        ensures
            final(self).recorded() == old(self).recorded().push(message@),
    ;

    fn warn(&mut self, message: &str)
        ensures
            final(self).recorded() == old(self).recorded().push(message@),
    ;

    fn debug(&mut self, message: &str)
        ensures
            final(self).recorded() == old(self).recorded().push(message@),
    ;
}

/// A logger that records messages in memory.  A console sink that decorates
/// each message with a timestamp and a severity colour lives outside the
/// library, next to the rest of the I/O.
#[derive(Debug)]
pub struct DefaultLogger {
    /// Name of the component the messages speak about.
    pub module_name: String,
    /// Messages recorded so far, oldest first.
    pub messages: Vec<String>,
}

impl DefaultLogger {
    /// A logger for the named component, with nothing recorded yet.
    pub fn new(module_name: &str) -> (r: DefaultLogger)
        ensures
            r.module_name@ == module_name@,
            r.messages@ == Seq::<String>::empty(),
    {
        DefaultLogger { module_name: module_name.to_owned(), messages: Vec::new() }
    }
}

proof fn lemma_views_of_push(v: Seq<String>, m: String)
    ensures
        views_of(v.push(m)) =~= views_of(v).push(m@),
{
}

impl Logger for DefaultLogger {
    open spec fn recorded(&self) -> Seq<Seq<char>> {
        views_of(self.messages@)
    }

    fn log(&mut self, message: &str) {
        let owned = message.to_owned();
        proof {
            lemma_views_of_push(self.messages@, owned);
        }
        self.messages.push(owned);
    }

    fn error(&mut self, message: &str) {
        let owned = message.to_owned();
        proof {
            lemma_views_of_push(self.messages@, owned);
        }
        self.messages.push(owned);
    }

    fn warn(&mut self, message: &str) {
        let owned = message.to_owned();
        proof {
            lemma_views_of_push(self.messages@, owned);
        }
        self.messages.push(owned);
    }

    fn debug(&mut self, message: &str) {
        let owned = message.to_owned();
        proof {
            lemma_views_of_push(self.messages@, owned);
        }
        self.messages.push(owned);
    }
}

} // verus!
