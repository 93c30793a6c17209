//! Execution contexts: the identifier type, the lifecycle collaborator
//! the scheduler depends on, and the errors a context manager reports.
//!
//! A context is an isolated state-access handle scoped to a single
//! transaction execution.  The scheduler never looks inside a context;
//! it only obtains identifiers from a [`ContextLifecycle`], hands them to
//! executors, and releases each one exactly once.

use vstd::prelude::*;
use vstd::string::StrSliceExecFns;
use vstd::string::StringExecFns;

use crate::protocol::TransactionReceipt;

verus! {

/// A 16-byte identifier naming a state-isolation context.
pub type ContextId = [u8; 16];

/// The collaborator from which the scheduler obtains and releases
/// execution contexts and transaction receipts.
///
/// The scheduler is verified against this contract; an implementation
/// supplied by an embedding takes the obligation on itself:
/// `get_transaction_receipt` must build its receipt for the transaction
/// that was asked for.
pub trait ContextLifecycle: Sized {
    /// Create a new context, depending on the given earlier contexts,
    /// against the state identified by `state_id`.  The returned
    /// identifier is expected to be fresh within this scheduler
    /// instance.
    fn create_context(&mut self, dependent_contexts: &[ContextId], state_id: &str) -> ContextId;

    /// Build the receipt for an executed transaction from the context's
    /// accumulated state changes, events and data.
    fn get_transaction_receipt(&self, context_id: &ContextId, transaction_id: &str) -> (r: Result<
        TransactionReceipt,
        ContextManagerError,
    >)
        ensures
            r matches Ok(receipt) ==> receipt@.transaction_id == transaction_id@,
    ;

    /// Release a context.  Tolerates identifiers whose receipts were
    /// never requested.
    fn drop_context(&mut self, context_id: ContextId);
}

/// Compare two context identifiers by contents.
pub fn context_id_eq(a: &ContextId, b: &ContextId) -> (r: bool)
    ensures
        r == (a@ == b@),
{
    let sa = a.as_slice();
    let sb = b.as_slice();
    let mut i: usize = 0;
    while i < 16
        invariant
            sa@ == a@,
            sb@ == b@,
            a@.len() == 16,
            b@.len() == 16,
            i <= 16,
            forall|j: int| 0 <= j < i ==> a@[j] == b@[j],
        decreases 16 - i,
    {
        if *vstd::slice::slice_index_get(sa, i) != *vstd::slice::slice_index_get(sb, i) {
            return false;
        }
        i += 1;
    }
    proof {
        assert(a@ =~= b@);
    }
    true
}

/// Mathematical model of a [`ContextManagerError`].
#[verifier::ext_equal]
pub enum ContextManagerErrorView {
    MissingContextError(Seq<char>),
    TransactionReceiptBuilderError(Seq<char>),
    StateReadError(Seq<char>),
    InternalError(Seq<char>),
}

/// An error reported by a context manager.  Each variant carries the
/// diagnostic text of the underlying failure.
#[derive(Debug)]
pub enum ContextManagerError {
    MissingContextError(String),
    TransactionReceiptBuilderError(String),
    StateReadError(String),
    InternalError(String),
}

/// One character of a quoted identifier: quote, backslash, nul, tab,
/// carriage return and line feed get the backslash escape `Debug`
/// formatting uses for them; every other character stands as itself.
/// (Other control characters, which `Debug` formatting would write as
/// `\u{…}` escapes, are not further escaped here.)
pub open spec fn debug_escaped_char(c: char) -> Seq<char> {
    if c == '"' {
        seq!['\\', '"']
    } else if c == '\\' {
        seq!['\\', '\\']
    } else if c == '\0' {
        seq!['\\', '0']
    } else if c == '\n' {
        seq!['\\', 'n']
    } else if c == '\r' {
        seq!['\\', 'r']
    } else if c == '\t' {
        seq!['\\', 't']
    } else {
        seq![c]
    }
}

/// A character sequence with each character escaped as above.
pub open spec fn debug_escaped(s: Seq<char>) -> Seq<char>
    decreases s.len(),
{
    if s.len() == 0 {
        Seq::<char>::empty()
    } else {
        debug_escaped_char(s[0]) + debug_escaped(s.drop_first())
    }
}

/// A string wrapped in double quotes with its characters escaped as
/// [`debug_escaped_char`] says — the form `Debug` formatting gives a
/// string, up to that function's treatment of unusual control
/// characters.
pub open spec fn debug_quoted(s: Seq<char>) -> Seq<char> {
    seq!['"'] + debug_escaped(s) + seq!['"']
}

pub proof fn lemma_debug_escaped_push(s: Seq<char>, c: char)
    ensures
        debug_escaped(s.push(c)) == debug_escaped(s) + debug_escaped_char(c),
    decreases s.len(),
{
    if s.len() == 0 {
        reveal_with_fuel(debug_escaped, 3);
        assert(s.push(c)[0] == c);
        assert(s.push(c).drop_first() =~= Seq::<char>::empty());
        assert(debug_escaped(s.push(c)) =~= debug_escaped(s) + debug_escaped_char(c));
    } else {
        assert(s.push(c)[0] == s[0]);
        assert(s.push(c).drop_first() =~= s.drop_first().push(c));
        lemma_debug_escaped_push(s.drop_first(), c);
        assert(debug_escaped(s.push(c)) =~= debug_escaped(s) + debug_escaped_char(c));
    }
}

/// Write a string quoted and escaped, as [`debug_quoted`] says, for
/// use in a diagnostic text.
fn debug_quote(s: &str) -> (r: String)
    ensures
        r@ == debug_quoted(s@),
{
    let mut out = String::from_str("\"");
    proof {
        reveal_strlit("\"");
        assert(out@ =~= seq!['"'] + debug_escaped(s@.take(0)));
    }
    let n = s.unicode_len();
    let mut i: usize = 0;
    while i < n
        invariant
            n == s@.len(),
            i <= n,
            out@ == seq!['"'] + debug_escaped(s@.take(i as int)),
        decreases n - i,
    {
        let c = s.get_char(i);
        if c == '"' {
            out.append("\\\"");
            proof {
                reveal_strlit("\\\"");
                assert(("\\\"")@ =~= debug_escaped_char(c));
            }
        } else if c == '\\' {
            out.append("\\\\");
            proof {
                reveal_strlit("\\\\");
                assert(("\\\\")@ =~= debug_escaped_char(c));
            }
        } else if c == '\0' {
            out.append("\\0");
            proof {
                reveal_strlit("\\0");
                assert(("\\0")@ =~= debug_escaped_char(c));
            }
        } else if c == '\n' {
            out.append("\\n");
            proof {
                reveal_strlit("\\n");
                assert(("\\n")@ =~= debug_escaped_char(c));
            }
        } else if c == '\r' {
            out.append("\\r");
            proof {
                reveal_strlit("\\r");
                assert(("\\r")@ =~= debug_escaped_char(c));
            }
        } else if c == '\t' {
            out.append("\\t");
            proof {
                reveal_strlit("\\t");
                assert(("\\t")@ =~= debug_escaped_char(c));
            }
        } else {
            let piece = s.substring_char(i, i + 1);
            out.append(piece);
            proof {
                assert(piece@ =~= debug_escaped_char(c));
            }
        }
        proof {
            lemma_debug_escaped_push(s@.take(i as int), s@[i as int]);
            assert(s@.take(i as int + 1) =~= s@.take(i as int).push(s@[i as int]));
            assert(out@ =~= seq!['"'] + debug_escaped(s@.take(i as int + 1)));
        }
        i += 1;
    }
    out.append("\"");
    proof {
        reveal_strlit("\"");
        assert(s@.take(n as int) =~= s@);
        assert(out@ =~= debug_quoted(s@));
    }
    out
}

/// The diagnostic text carried by a context-manager error.
pub open spec fn cm_error_description(e: ContextManagerErrorView) -> Seq<char> {
    match e {
        ContextManagerErrorView::MissingContextError(s) => s,
        ContextManagerErrorView::TransactionReceiptBuilderError(s) => s,
        ContextManagerErrorView::StateReadError(s) => s,
        ContextManagerErrorView::InternalError(s) => s,
    }
}

/// The full display text of a context-manager error.  A missing
/// context's identifier is written quoted and escaped, as
/// [`debug_quoted`] says.
pub open spec fn cm_error_message(e: ContextManagerErrorView) -> Seq<char> {
    match e {
        ContextManagerErrorView::MissingContextError(s) => "Unable to find specified Context: "@
            + debug_quoted(s),
        ContextManagerErrorView::TransactionReceiptBuilderError(s) =>
        "A TransactionReceiptBuilder error occured: "@ + s,
        ContextManagerErrorView::StateReadError(s) => "A State Read error occured: "@ + s,
        ContextManagerErrorView::InternalError(s) => "An internal error occured: "@ + s,
    }
}

impl View for ContextManagerError {
    type V = ContextManagerErrorView;

    open spec fn view(&self) -> ContextManagerErrorView {
        match self {
            ContextManagerError::MissingContextError(s) => {
                ContextManagerErrorView::MissingContextError(s@)
            },
            ContextManagerError::TransactionReceiptBuilderError(s) => {
                ContextManagerErrorView::TransactionReceiptBuilderError(s@)
            },
            ContextManagerError::StateReadError(s) => {
                ContextManagerErrorView::StateReadError(s@)
            },
            ContextManagerError::InternalError(s) => {
                ContextManagerErrorView::InternalError(s@)
            },
        }
    }
}

impl ContextManagerError {
    /// The diagnostic text of the underlying failure.
    pub fn description(&self) -> (r: &str)
        ensures
            r@ == cm_error_description(self@),
    {
        match self {
            ContextManagerError::MissingContextError(s) => s.as_str(),
            ContextManagerError::TransactionReceiptBuilderError(s) => s.as_str(),
            ContextManagerError::StateReadError(s) => s.as_str(),
            ContextManagerError::InternalError(s) => s.as_str(),
        }
    }

    /// The full display text of this error.
    pub fn message(&self) -> (r: String)
        ensures
            r@ == cm_error_message(self@),
    {
        match self {
            ContextManagerError::MissingContextError(s) => {
                String::from_str("Unable to find specified Context: ").concat(
                    debug_quote(s.as_str()).as_str(),
                )
            },
            ContextManagerError::TransactionReceiptBuilderError(s) => {
                String::from_str("A TransactionReceiptBuilder error occured: ").concat(s.as_str())
            },
            ContextManagerError::StateReadError(s) => {
                String::from_str("A State Read error occured: ").concat(s.as_str())
            },
            ContextManagerError::InternalError(s) => {
                String::from_str("An internal error occured: ").concat(s.as_str())
            },
        }
    }
}

/// Mathematical model of a [`ContextManagerCoreError`].
#[verifier::ext_equal]
pub enum ContextManagerCoreErrorView {
    HandlerSendError(Seq<char>),
    CoreSendError(Seq<char>),
    CoreReceiveError(Seq<char>),
    HandlerError(Seq<char>),
}

/// An error raised inside a context manager's own worker, between its
/// handler side and its core side.  Each variant carries the diagnostic
/// text of the underlying failure.
#[derive(Debug)]
pub enum ContextManagerCoreError {
    HandlerSendError(String),
    CoreSendError(String),
    CoreReceiveError(String),
    HandlerError(String),
}

/// The diagnostic text carried by a context-manager core error.
pub open spec fn cm_core_error_description(e: ContextManagerCoreErrorView) -> Seq<char> {
    match e {
        ContextManagerCoreErrorView::HandlerSendError(s) => s,
        ContextManagerCoreErrorView::CoreSendError(s) => s,
        ContextManagerCoreErrorView::CoreReceiveError(s) => s,
        ContextManagerCoreErrorView::HandlerError(s) => s,
    }
}

/// The full display text of a context-manager core error.
pub open spec fn cm_core_error_message(e: ContextManagerCoreErrorView) -> Seq<char> {
    match e {
        ContextManagerCoreErrorView::HandlerSendError(s) =>
        "A Send Error occurred from the Context Manager handler: "@ + s,
        ContextManagerCoreErrorView::CoreSendError(s) =>
        "A Send Error occurred from the Context Manager thread: "@ + s,
        ContextManagerCoreErrorView::CoreReceiveError(s) => "A RecvError occurred: "@ + s,
        ContextManagerCoreErrorView::HandlerError(s) =>
        "Error occurred in the Context Manager handler: "@ + s,
    }
}

impl View for ContextManagerCoreError {
    type V = ContextManagerCoreErrorView;

    open spec fn view(&self) -> ContextManagerCoreErrorView {
        match self {
            ContextManagerCoreError::HandlerSendError(s) => {
                ContextManagerCoreErrorView::HandlerSendError(s@)
            },
            ContextManagerCoreError::CoreSendError(s) => {
                ContextManagerCoreErrorView::CoreSendError(s@)
            },
            ContextManagerCoreError::CoreReceiveError(s) => {
                ContextManagerCoreErrorView::CoreReceiveError(s@)
            },
            ContextManagerCoreError::HandlerError(s) => {
                ContextManagerCoreErrorView::HandlerError(s@)
            },
        }
    }
}

impl ContextManagerCoreError {
    /// The diagnostic text of the underlying failure.
    pub fn description(&self) -> (r: &str)
        ensures
            r@ == cm_core_error_description(self@),
    {
        match self {
            ContextManagerCoreError::HandlerSendError(s) => s.as_str(),
            ContextManagerCoreError::CoreSendError(s) => s.as_str(),
            ContextManagerCoreError::CoreReceiveError(s) => s.as_str(),
            ContextManagerCoreError::HandlerError(s) => s.as_str(),
        }
    }

    /// The full display text of this error.
    pub fn message(&self) -> (r: String)
        ensures
            r@ == cm_core_error_message(self@),
    {
        match self {
            ContextManagerCoreError::HandlerSendError(s) => {
                String::from_str("A Send Error occurred from the Context Manager handler: ")
                    .concat(s.as_str())
            },
            ContextManagerCoreError::CoreSendError(s) => {
                String::from_str("A Send Error occurred from the Context Manager thread: ")
                    .concat(s.as_str())
            },
            ContextManagerCoreError::CoreReceiveError(s) => {
                String::from_str("A RecvError occurred: ").concat(s.as_str())
            },
            ContextManagerCoreError::HandlerError(s) => {
                String::from_str("Error occurred in the Context Manager handler: ").concat(
                    s.as_str(),
                )
            },
        }
    }
}

impl From<ContextManagerCoreError> for ContextManagerError {
    /// A core error surfaces as an internal error carrying its full
    /// display text.
    fn from(err: ContextManagerCoreError) -> (r: Self)
        ensures
            r@ == ContextManagerErrorView::InternalError(cm_core_error_message(err@)),
    {
        ContextManagerError::InternalError(err.message())
    }
}

impl vstd::std_specs::convert::FromSpecImpl<ContextManagerCoreError> for ContextManagerError {
    open spec fn obeys_from_spec() -> bool {
        false
    }

    open spec fn from_spec(err: ContextManagerCoreError) -> Self {
        vstd::pervasive::arbitrary()
    }
}

} // verus!
