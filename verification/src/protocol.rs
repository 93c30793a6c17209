//! Value objects consumed by the scheduler: transactions, batches and
//! transaction receipts.
//!
//! The scheduler treats a transaction as an opaque payload identified by
//! its header signature, and a batch as an ordered group of transactions
//! with a header signature of its own.  These types hold exactly the data
//! the scheduler reads; richer wire formats can be converted into them at
//! the boundary of an embedding.

use vstd::prelude::*;

verus! {

/// Mathematical model of a [`Transaction`] (and of a [`TransactionPair`]).
#[verifier::ext_equal]
pub struct TransactionView {
    pub header_signature: Seq<char>,
    pub payload: Seq<u8>,
}

/// Mathematical model of a [`Batch`] (and of a [`BatchPair`]).
#[verifier::ext_equal]
pub struct BatchView {
    pub header_signature: Seq<char>,
    pub transactions: Seq<TransactionView>,
}

/// Mathematical model of a [`TransactionReceipt`].
#[verifier::ext_equal]
pub struct ReceiptView {
    pub transaction_id: Seq<char>,
    pub data: Seq<u8>,
}

/// An opaque transaction payload, identified by its header signature.
#[derive(Debug, Clone, Eq, Hash)]
pub struct Transaction {
    header_signature: String,
    payload: Vec<u8>,
}

impl View for Transaction {
    type V = TransactionView;

    closed spec fn view(&self) -> TransactionView {
        TransactionView {
            header_signature: self.header_signature@,
            payload: self.payload@,
        }
    }
}

impl Transaction {
    /// Create a new `Transaction` from its identifier and payload.
    pub fn new(header_signature: String, payload: Vec<u8>) -> (txn: Self)
        ensures
            txn@.header_signature == header_signature@,
            txn@.payload == payload@,
    {
        Transaction { header_signature, payload }
    }

    /// The signature of this transaction's header, which identifies it.
    pub fn header_signature(&self) -> (sig: &str)
        ensures
            sig@ == self@.header_signature,
    {
        self.header_signature.as_str()
    }

    /// The header signature as an owned-string reference.
    pub fn header_signature_string(&self) -> (sig: &String)
        ensures
            sig@ == self@.header_signature,
    {
        &self.header_signature
    }

    /// The opaque payload to be executed.
    pub fn payload(&self) -> (payload: &Vec<u8>)
        ensures
            payload@ == self@.payload,
    {
        &self.payload
    }

    /// A value-identical copy, with the copy's contents pinned down
    /// (unlike `clone`, whose result Verus leaves unspecified).
    pub fn duplicate(&self) -> (txn: Self)
        ensures
            txn@ == self@,
    {
        Transaction {
            header_signature: self.header_signature.clone(),
            payload: vstd::slice::slice_to_vec(self.payload.as_slice()),
        }
    }
}

impl PartialEq for Transaction {
    fn eq(&self, other: &Self) -> (r: bool) {
        let r = self.header_signature == other.header_signature && bytes_eq(
            &self.payload,
            &other.payload,
        );
        proof {
            if r {
                assert(self@ =~= other@);
            }
        }
        r
    }
}

impl vstd::std_specs::cmp::PartialEqSpecImpl for Transaction {
    open spec fn obeys_eq_spec() -> bool {
        true
    }

    open spec fn eq_spec(&self, other: &Self) -> bool {
        self@ == other@
    }
}

/// A transaction together with its parsed header.
///
/// The header carries nothing the scheduler reads beyond the signature,
/// so the pair simply wraps the transaction.
#[derive(Debug, Clone, Eq, Hash)]
pub struct TransactionPair {
    transaction: Transaction,
}

impl View for TransactionPair {
    type V = TransactionView;

    closed spec fn view(&self) -> TransactionView {
        self.transaction@
    }
}

impl TransactionPair {
    /// Create a new `TransactionPair`.
    pub fn new(transaction: Transaction) -> (pair: Self)
        ensures
            pair@ == transaction@,
    {
        TransactionPair { transaction }
    }

    /// The transaction itself.
    pub fn transaction(&self) -> (txn: &Transaction)
        ensures
            txn@ == self@,
    {
        &self.transaction
    }
}

impl PartialEq for TransactionPair {
    fn eq(&self, other: &Self) -> (r: bool) {
        self.transaction == other.transaction
    }
}

impl vstd::std_specs::cmp::PartialEqSpecImpl for TransactionPair {
    open spec fn obeys_eq_spec() -> bool {
        true
    }

    open spec fn eq_spec(&self, other: &Self) -> bool {
        self@ == other@
    }
}

/// An ordered group of transactions, atomic for result reporting.
#[derive(Debug, Clone, Eq, Hash)]
pub struct Batch {
    header_signature: String,
    transactions: Vec<Transaction>,
}

/// The sequence of views of a list of transactions.
pub open spec fn transactions_view(transactions: Seq<Transaction>) -> Seq<TransactionView> {
    transactions.map_values(|t: Transaction| t@)
}

impl View for Batch {
    type V = BatchView;

    closed spec fn view(&self) -> BatchView {
        BatchView {
            header_signature: self.header_signature@,
            transactions: transactions_view(self.transactions@),
        }
    }
}

impl Batch {
    /// Create a new `Batch` from its identifier and its transactions.
    pub fn new(header_signature: String, transactions: Vec<Transaction>) -> (batch: Self)
        ensures
            batch@.header_signature == header_signature@,
            batch@.transactions == transactions_view(transactions@),
    {
        Batch { header_signature, transactions }
    }

    /// The signature of this batch's header, which identifies it.
    pub fn header_signature(&self) -> (sig: &str)
        ensures
            sig@ == self@.header_signature,
    {
        self.header_signature.as_str()
    }

    /// The header signature as an owned-string reference.
    pub fn header_signature_string(&self) -> (sig: &String)
        ensures
            sig@ == self@.header_signature,
    {
        &self.header_signature
    }

    /// The transactions of the batch, in submission order.
    pub fn transactions(&self) -> (transactions: &Vec<Transaction>)
        ensures
            transactions_view(transactions@) == self@.transactions,
    {
        &self.transactions
    }
}

impl PartialEq for Batch {
    fn eq(&self, other: &Self) -> (r: bool) {
        let r = self.header_signature == other.header_signature && transaction_lists_eq(
            &self.transactions,
            &other.transactions,
        );
        proof {
            if r {
                assert(self@ =~= other@);
            } else {
                assert(self@.header_signature == other@.header_signature ==> self@.transactions
                    != other@.transactions);
            }
        }
        r
    }
}

impl vstd::std_specs::cmp::PartialEqSpecImpl for Batch {
    open spec fn obeys_eq_spec() -> bool {
        true
    }

    open spec fn eq_spec(&self, other: &Self) -> bool {
        self@ == other@
    }
}

/// A batch together with its parsed header.
///
/// As with [`TransactionPair`], the parsed header adds nothing the
/// scheduler reads, so the pair wraps the batch.
#[derive(Debug, Clone, Eq, Hash)]
pub struct BatchPair {
    batch: Batch,
}

impl View for BatchPair {
    type V = BatchView;

    closed spec fn view(&self) -> BatchView {
        self.batch@
    }
}

impl BatchPair {
    /// Create a new `BatchPair`.
    pub fn new(batch: Batch) -> (pair: Self)
        ensures
            pair@ == batch@,
    {
        BatchPair { batch }
    }

    /// The batch itself.
    pub fn batch(&self) -> (batch: &Batch)
        ensures
            batch@ == self@,
    {
        &self.batch
    }
}

impl PartialEq for BatchPair {
    fn eq(&self, other: &Self) -> (r: bool) {
        self.batch == other.batch
    }
}

impl vstd::std_specs::cmp::PartialEqSpecImpl for BatchPair {
    open spec fn obeys_eq_spec() -> bool {
        true
    }

    open spec fn eq_spec(&self, other: &Self) -> bool {
        self@ == other@
    }
}

/// The record produced for a successfully executed transaction.
///
/// The state changes, events and data that execution produced are
/// consolidated here as opaque bytes; the scheduler only carries the
/// receipt through to the batch result.
#[derive(Debug, Clone, Eq, Hash)]
pub struct TransactionReceipt {
    /// Identifier of the transaction this receipt belongs to.
    pub transaction_id: String,
    /// The consolidated output of the execution.
    pub data: Vec<u8>,
}

impl View for TransactionReceipt {
    type V = ReceiptView;

    closed spec fn view(&self) -> ReceiptView {
        ReceiptView { transaction_id: self.transaction_id@, data: self.data@ }
    }
}

impl PartialEq for TransactionReceipt {
    fn eq(&self, other: &Self) -> (r: bool) {
        let r = self.transaction_id == other.transaction_id && bytes_eq(&self.data, &other.data);
        proof {
            if r {
                assert(self@ =~= other@);
            }
        }
        r
    }
}

impl vstd::std_specs::cmp::PartialEqSpecImpl for TransactionReceipt {
    open spec fn obeys_eq_spec() -> bool {
        true
    }

    open spec fn eq_spec(&self, other: &Self) -> bool {
        self@ == other@
    }
}

/// Compare two byte vectors by contents.
pub fn bytes_eq(a: &Vec<u8>, b: &Vec<u8>) -> (r: bool)
    ensures
        r == (a@ == b@),
{
    if a.len() != b.len() {
        return false;
    }
    let n = a.len();
    let mut i: usize = 0;
    while i < n
        invariant
            n == a@.len() == b@.len(),
            i <= n,
            forall|j: int| 0 <= j < i ==> a@[j] == b@[j],
        decreases n - i,
    {
        if a[i] != b[i] {
            return false;
        }
        i += 1;
    }
    proof {
        assert(a@ =~= b@);
    }
    true
}

/// Compare two transaction lists by contents.
fn transaction_lists_eq(a: &Vec<Transaction>, b: &Vec<Transaction>) -> (r: bool)
    ensures
        r == (transactions_view(a@) == transactions_view(b@)),
{
    if a.len() != b.len() {
        proof {
            assert(transactions_view(a@).len() != transactions_view(b@).len());
        }
        return false;
    }
    let n = a.len();
    let mut i: usize = 0;
    while i < n
        invariant
            n == a@.len() == b@.len(),
            i <= n,
            forall|j: int| 0 <= j < i ==> a@[j]@ == b@[j]@,
        decreases n - i,
    {
        if !(a[i] == b[i]) {
            proof {
                assert(transactions_view(a@)[i as int] != transactions_view(b@)[i as int]);
            }
            return false;
        }
        i += 1;
    }
    proof {
        assert(transactions_view(a@) =~= transactions_view(b@));
    }
    true
}

} // verus!
