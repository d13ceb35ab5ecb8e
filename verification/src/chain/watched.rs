//! The invoices that a watcher holds, by order id.

use crate::chain::definitions::{Invoice, InvoiceView};
use vstd::prelude::*;

verus! {

/// The watched invoices. No order id occurs twice; the invoices keep the
/// order in which their ids first came in.
#[derive(Debug)]
pub struct Watched {
    entries: Vec<Invoice>,
}

/// The position of the first invoice at or after `from` with the order
/// id `id`.
pub open spec fn find_invoice_from(invoices: Seq<InvoiceView>, id: Seq<char>, from: int) -> Option<
    int,
>
    decreases invoices.len() - from,
{
    if from < 0 || from >= invoices.len() {
        None
    } else if invoices[from].id == id {
        Some(from)
    } else {
        find_invoice_from(invoices, id, from + 1)
    }
}

/// Whether an invoice of the order `id` is among `invoices`.
pub open spec fn watching(invoices: Seq<InvoiceView>, id: Seq<char>) -> bool {
    exists|i: int| 0 <= i < invoices.len() && (#[trigger] invoices[i]).id == id
}

/// Whether no order id occurs twice.
pub open spec fn ids_distinct(invoices: Seq<InvoiceView>) -> bool {
    forall|i: int, j: int|
        0 <= i < j < invoices.len() ==> (#[trigger] invoices[i]).id != (#[trigger] invoices[j]).id
}

/// What [`find_invoice_from`] finds is a position at or after `from`
/// that holds `id`, and no position between holds it; it finds nothing
/// only where no position at or after `from` holds `id`.
pub proof fn lemma_find_invoice_from(invoices: Seq<InvoiceView>, id: Seq<char>, from: int)
    requires
        0 <= from,
    ensures
        match find_invoice_from(invoices, id, from) {
            Some(i) => from <= i < invoices.len() && invoices[i].id == id && forall|j: int|
                from <= j < i ==> (#[trigger] invoices[j]).id != id,
            None => forall|j: int| from <= j < invoices.len() ==> (#[trigger] invoices[j]).id != id,
        },
    decreases invoices.len() - from,
{
    if from < invoices.len() && invoices[from].id != id {
        lemma_find_invoice_from(invoices, id, from + 1);
    }
}

/// The invoices of a list, each as mathematical data.
pub open spec fn invoices_view(invoices: Seq<Invoice>) -> Seq<InvoiceView> {
    Seq::new(invoices.len(), |i: int| invoices[i]@)
}

impl View for Watched {
    type V = Seq<InvoiceView>;

    closed spec fn view(&self) -> Seq<InvoiceView> {
        invoices_view(self.entries@)
    }
}

impl Watched {
    /// Whether the set is valid: no order id occurs twice. Every set is.
    #[verifier::type_invariant]
    pub open spec fn wf(&self) -> bool {
        ids_distinct(self@)
    }

    /// The empty set.
    pub fn new() -> (watched: Self)
        ensures
            watched@ == Seq::<InvoiceView>::empty(),
            watched.wf(),
    {
        let watched = Watched { entries: Vec::new() };
        assert(watched@ =~= Seq::<InvoiceView>::empty());
        watched
    }

    /// The number of invoices.
    pub fn len(&self) -> (n: usize)
        ensures
            n == self@.len(),
    {
        self.entries.len()
    }

    /// The invoice at position `i`.
    pub fn at(&self, i: usize) -> (invoice: &Invoice)
        requires
            i < self@.len(),
        ensures
            invoice@ == self@[i as int],
    {
        &self.entries[i]
    }

    /// The invoice of the order `id`, if it is watched.
    pub fn get(&self, id: &String) -> (found: Option<&Invoice>)
        ensures
            match found {
                Some(invoice) => watching(self@, id@) && (find_invoice_from(self@, id@, 0) matches Some(
                    i,
                ) && invoice@ == self@[i]),
                None => !watching(self@, id@),
            },
    {
        proof {
            lemma_find_invoice_from(self@, id@, 0);
        }
        match self.position(id) {
            Some(i) => Some(&self.entries[i]),
            None => None,
        }
    }

    /// The position of the invoice of the order `id`, if it is watched.
    fn position(&self, id: &String) -> (found: Option<usize>)
        ensures
            match found {
                Some(i) => i < self@.len() && find_invoice_from(self@, id@, 0) == Some(i as int),
                None => find_invoice_from(self@, id@, 0) is None,
            },
    {
        let mut i: usize = 0;
        while i < self.entries.len()
            invariant
                i <= self.entries@.len(),
                self@.len() == self.entries@.len(),
                find_invoice_from(self@, id@, 0) == find_invoice_from(self@, id@, i as int),
            decreases self.entries@.len() - i,
        {
            if self.entries[i].id == *id {
                return Some(i);
            }
            i += 1;
        }
        None
    }

    /// Puts `invoice` under its order id: in place of the invoice that was
    /// watched under that id, or else at the end.
    pub fn insert(&mut self, invoice: Invoice)
        ensures
            final(self).wf(),
            final(self)@ == match find_invoice_from(old(self)@, invoice.id@, 0) {
                Some(i) => old(self)@.update(i, invoice@),
                None => old(self)@.push(invoice@),
            },
            watching(final(self)@, invoice.id@),
            forall|id: Seq<char>|
                id != invoice.id@ ==> (watching(final(self)@, id) <==> watching(old(self)@, id)),
    {
        proof {
            use_type_invariant(&*self);
            lemma_find_invoice_from(self@, invoice.id@, 0);
        }
        let ghost before = self@;
        let ghost entry = invoice@;
        let found = self.position(&invoice.id);
        let mut entries: Vec<Invoice> = Vec::new();
        core::mem::swap(&mut self.entries, &mut entries);
        assert(invoices_view(entries@) =~= before);
        match found {
            Some(i) => {
                entries[i] = invoice;
                assert(invoices_view(entries@) =~= before.update(i as int, entry));
                assert(invoices_view(entries@)[i as int] == entry);
            },
            None => {
                entries.push(invoice);
                assert(invoices_view(entries@) =~= before.push(entry));
                assert(invoices_view(entries@)[before.len() as int] == entry);
            },
        }
        let ghost after = invoices_view(entries@);
        proof {
            assert(ids_distinct(after)) by {
                assert forall|a: int, b: int| 0 <= a < b < after.len() implies (#[trigger] after[a]).id
                    != (#[trigger] after[b]).id by {
                    if a < before.len() && after[a] != entry {
                        assert(after[a] == before[a]);
                    }
                    if b < before.len() && after[b] != entry {
                        assert(after[b] == before[b]);
                    }
                }
            }
            assert forall|id: Seq<char>| id != entry.id implies (watching(after, id) <==> watching(
                before,
                id,
            )) by {
                if watching(after, id) {
                    let k = choose|k: int| 0 <= k < after.len() && (#[trigger] after[k]).id == id;
                    assert(before[k].id == id);
                }
                if watching(before, id) {
                    let k = choose|k: int| 0 <= k < before.len() && (#[trigger] before[k]).id == id;
                    assert(after[k].id == id);
                }
            }
        }
        self.entries = entries;
    }

    /// Replaces the invoices by `kept`.
    pub(crate) fn replace(&mut self, kept: Vec<Invoice>)
        requires
            ids_distinct(invoices_view(kept@)),
        ensures
            final(self).wf(),
            final(self)@ == invoices_view(kept@),
    {
        self.entries = kept;
    }
}

} // verus!
