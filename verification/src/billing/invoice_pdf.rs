//! The printed invoice: what is drawn where on an A4 page, in millimetres from the
//! bottom left corner.
use vstd::prelude::*;
use crate::error::{not_found, owned, validation, BillingError};
use crate::models::{Customer, Invoice, InvoiceItem};
use crate::money::dec_text;
use crate::text::{chars_of, extend_chars, extend_str, string_of};
use crate::time::{format_ymd, utc_text, ymd_pattern};

verus! {

#[derive(Clone, Debug)]
pub struct GenerateInvoicePdfRequest {
    pub invoice_id: String,
}

/// What the printed invoice needs from storage.
pub trait InvoicePdfRepository {
    /// Holds of each answer the store gives when asked for the invoice `invoice_id`; a
    /// store that does not describe its answers admits every answer (so for each relation
    /// below).
    closed spec fn get_invoice_answer(&self, invoice_id: Seq<char>, answer: Result<Invoice, BillingError>) -> bool {
        true
    }

    /// Holds of each answer when asked for the customer `customer_id`.
    closed spec fn get_customer_answer(&self, customer_id: Seq<char>, answer: Result<Option<Customer>, BillingError>) -> bool {
        true
    }

    /// Holds of each answer when asked for the lines of the invoice `invoice_id`.
    closed spec fn list_invoice_items_answer(&self, invoice_id: Seq<char>, answer: Result<Vec<InvoiceItem>, BillingError>) -> bool {
        true
    }

    fn get_invoice(&self, invoice_id: &str) -> (r: Result<Invoice, BillingError>)
        ensures
            self.get_invoice_answer(invoice_id@, r),
    ;

    fn get_customer(&self, customer_id: &str) -> (r: Result<Option<Customer>, BillingError>)
        ensures
            self.get_customer_answer(customer_id@, r),
    ;

    fn list_invoice_items(&self, invoice_id: &str) -> (r: Result<Vec<InvoiceItem>, BillingError>)
        ensures
            self.list_invoice_items_answer(invoice_id@, r),
    ;
}

/// The page of an invoice from what the store answered: an amount outside the decimal
/// domain is an internal error, and so is a date that cannot be printed; otherwise the
/// layout `invoice_layout` gives.
pub open spec fn page_outcome(inv: Invoice, cust: Customer, items: Seq<InvoiceItem>, r: Result<InvoicePdfLayout, BillingError>) -> bool {
    if !(items_wf(items) && inv.subtotal.wf() && inv.tax.wf() && inv.total.wf()) {
        r matches Err(BillingError::Internal(_))
    } else {
        match r {
            Ok(l) => layout_outcome(inv, cust, items, Some(l)),
            Err(e) => e is Internal && layout_outcome(inv, cust, items, None),
        }
    }
}

/// A text drawn on the page.
#[derive(Clone, Debug)]
pub struct PdfText {
    pub text: String,
    /// Font size in points.
    pub size: u32,
    pub x_mm: i32,
    pub y_mm: i32,
    pub bold: bool,
}

/// A horizontal rule from `x1_mm` to `x2_mm` at height `y_mm`.
#[derive(Clone, Copy, Debug)]
pub struct PdfRule {
    pub x1_mm: i32,
    pub x2_mm: i32,
    pub y_mm: i32,
}

#[derive(Clone, Debug)]
pub enum PdfOp {
    Text(PdfText),
    Rule(PdfRule),
}

/// A whole page: its title and what is drawn, in drawing order.
#[derive(Clone, Debug)]
pub struct InvoicePdfLayout {
    pub title: String,
    pub ops: Vec<PdfOp>,
    /// Where in `ops` the item rows begin, four texts per row.
    pub first_row: usize,
    /// How many item rows were drawn.
    pub rows: usize,
}

/// A description cut to `max` characters: longer ones keep their first `max - 3`
/// characters followed by `...`.
pub open spec fn spec_truncate(s: Seq<char>, max: nat) -> Seq<char> {
    if s.len() <= max {
        s
    } else {
        let keep: int = if max >= 3 {
            max - 3
        } else {
            0
        };
        s.subrange(0, keep) + "..."@
    }
}

pub fn truncate_description(description: &str, max_chars: usize) -> (r: String)
    ensures
        r@ == spec_truncate(description@, max_chars as nat),
{
    let v = chars_of(description);
    if v.len() <= max_chars {
        return string_of(&v);
    }
    let keep: usize = if max_chars >= 3 { max_chars - 3 } else { 0 };
    let mut out: Vec<char> = Vec::new();
    let mut i: usize = 0;
    while i < keep
        invariant
            keep < v.len(),
            v@ == description@,
            i <= keep,
            out@ == description@.subrange(0, i as int),
        decreases keep - i,
    {
        out.push(v[i]);
        proof {
            assert(description@.subrange(0, i + 1) =~= description@.subrange(0, i as int).push(
                description@[i as int],
            ));
        }
        i = i + 1;
    }
    extend_str(&mut out, "...");
    string_of(&out)
}

/// An amount printed with its currency: `<currency> <amount>`.
pub open spec fn currency_text(amount: crate::money::Dec, currency: Seq<char>) -> Seq<char> {
    currency + " "@ + dec_text(amount)
}

pub fn format_currency(amount: &crate::money::Dec, currency: &str) -> (r: String)
    requires
        amount.wf(),
    ensures
        r@ == currency_text(*amount, currency@),
{
    let mut v: Vec<char> = Vec::new();
    extend_str(&mut v, currency);
    extend_str(&mut v, " ");
    let a = amount.to_text();
    extend_str(&mut v, a.as_str());
    string_of(&v)
}

/// An optional text, empty when absent.
pub open spec fn or_empty(s: Option<String>) -> Seq<char> {
    match s {
        Some(x) => x@,
        None => Seq::empty(),
    }
}

/// The non-empty parts joined with `, `.
pub open spec fn join_non_empty(parts: Seq<Seq<char>>) -> Seq<char>
    decreases parts.len(),
{
    if parts.len() == 0 {
        Seq::empty()
    } else {
        let prev = join_non_empty(parts.drop_last());
        let p = parts.last();
        if p.len() == 0 {
            prev
        } else if prev.len() == 0 {
            p
        } else {
            prev + ", "@ + p
        }
    }
}

/// City, state and postcode of the billing address, as one line.
pub open spec fn city_state_text(c: Customer) -> Seq<char> {
    join_non_empty(seq![or_empty(c.billing_city), or_empty(c.billing_state), or_empty(c.billing_zip)])
}

fn opt_chars(s: &Option<String>) -> (r: Vec<char>)
    ensures
        r@ == or_empty(*s),
{
    match s {
        Some(x) => chars_of(x.as_str()),
        None => Vec::new(),
    }
}

fn join_step(acc: &mut Vec<char>, part: &Vec<char>)
    ensures
        final(acc)@ == (if part@.len() == 0 {
            old(acc)@
        } else if old(acc)@.len() == 0 {
            part@
        } else {
            old(acc)@ + ", "@ + part@
        }),
{
    if part.len() == 0 {
        return;
    }
    if acc.len() == 0 {
        extend_chars(acc, part);
        proof {
            assert(acc@ =~= part@);
        }
        return;
    }
    extend_str(acc, ", ");
    extend_chars(acc, part);
}

pub fn city_state_line(customer: &Customer) -> (r: String)
    ensures
        r@ == city_state_text(*customer),
{
    let a = opt_chars(&customer.billing_city);
    let b = opt_chars(&customer.billing_state);
    let c = opt_chars(&customer.billing_zip);
    let ghost parts = seq![or_empty(customer.billing_city), or_empty(customer.billing_state), or_empty(customer.billing_zip)];
    let mut acc: Vec<char> = Vec::new();
    join_step(&mut acc, &a);
    proof {
        assert(parts.subrange(0, 1).drop_last() =~= Seq::<Seq<char>>::empty());
        assert(join_non_empty(Seq::<Seq<char>>::empty()) == Seq::<char>::empty());
        assert(parts.subrange(0, 1).last() == a@);
        assert(acc@ == join_non_empty(parts.subrange(0, 1)));
    }
    join_step(&mut acc, &b);
    proof {
        assert(parts.subrange(0, 2).drop_last() =~= parts.subrange(0, 1));
        assert(acc@ == join_non_empty(parts.subrange(0, 2)));
    }
    join_step(&mut acc, &c);
    proof {
        assert(parts.subrange(0, 3).drop_last() =~= parts.subrange(0, 2));
        assert(parts.subrange(0, 3) =~= parts);
    }
    string_of(&acc)
}

fn text_op(text: String, size: u32, x_mm: i32, y_mm: i32, bold: bool) -> (r: PdfOp)
    ensures
        r == PdfOp::Text(PdfText { text, size, x_mm, y_mm, bold }),
{
    PdfOp::Text(PdfText { text, size, x_mm, y_mm, bold })
}

/// Whether op `o` draws `t` at `size`, `x`, `y` in the given weight.
pub open spec fn draws(o: PdfOp, t: Seq<char>, size: u32, x: i32, y: i32, bold: bool) -> bool {
    o matches PdfOp::Text(p) && p.text@ == t && p.size == size && p.x_mm == x && p.y_mm == y
        && p.bold == bold
}

/// The lowest height at which an item row is still followed by another.
pub const ROWS_FLOOR_MM: i32 = 40;

/// How many of `n` item rows fit when the first is drawn at `y0`: rows are 5 mm apart
/// and drawing stops after the first row that leaves the next below 40 mm.
pub open spec fn rows_that_fit(n: int, y0: int) -> int {
    let cap = if y0 - 5 < 40 {
        1
    } else {
        (y0 - 40) / 5 + 1
    };
    if n < cap {
        n
    } else {
        cap
    }
}

/// The four texts of item row `k`: description (cut to 50 characters), quantity, unit
/// price and amount, at size 8.
pub open spec fn row_drawn(ops: Seq<PdfOp>, start: int, item: InvoiceItem, currency: Seq<char>, y: i32) -> bool {
    &&& draws(ops[start], spec_truncate(item.description@, 50), 8, 20, y, false)
    &&& draws(ops[start + 1], dec_text(item.quantity), 8, 110, y, false)
    &&& draws(ops[start + 2], currency_text(item.unit_price, currency), 8, 130, y, false)
    &&& draws(ops[start + 3], currency_text(item.amount, currency), 8, 165, y, false)
}

pub open spec fn items_wf(items: Seq<InvoiceItem>) -> bool {
    forall|i: int| 0 <= i < items.len() ==> (#[trigger] items[i]).quantity.wf() && items[i].unit_price.wf()
        && items[i].amount.wf()
}

/// Draws the item rows from `y0` down; gives back the height below the last row.
pub fn item_rows(ops: &mut Vec<PdfOp>, items: &Vec<InvoiceItem>, currency: &String, y0: i32) -> (r: (
    usize,
    i32,
))
    requires
        items_wf(items@),
        100 <= y0 <= 300,
    ensures
        r.0 == rows_that_fit(items@.len() as int, y0 as int),
        r.1 == y0 - 5 * r.0,
        final(ops)@.len() == old(ops)@.len() + 4 * r.0,
        final(ops)@.subrange(0, old(ops)@.len() as int) == old(ops)@,
        forall|k: int| 0 <= k < r.0 ==> row_drawn(
            final(ops)@,
            old(ops)@.len() + 4 * k,
            #[trigger] items@[k],
            currency@,
            (y0 - 5 * k) as i32,
        ),
{
    let ghost start = ops@.len();
    let ghost base = ops@;
    let mut y = y0;
    let mut k: usize = 0;
    while k < items.len()
        invariant_except_break
            items_wf(items@),
            100 <= y0 <= 300,
            k <= items.len(),
            y == y0 - 5 * k,
            y >= 40 || k == 0,
            k <= rows_that_fit(items@.len() as int, y0 as int),
            ops@.len() == start + 4 * k,
            ops@.subrange(0, start as int) == base,
            forall|j: int| 0 <= j < k ==> row_drawn(ops@, start + 4 * j, #[trigger] items@[j], currency@, (y0 - 5 * j) as i32),
        ensures
            k == rows_that_fit(items@.len() as int, y0 as int),
            y == y0 - 5 * k,
            ops@.len() == start + 4 * k,
            ops@.subrange(0, start as int) == base,
            forall|j: int| 0 <= j < k ==> row_drawn(ops@, start + 4 * j, #[trigger] items@[j], currency@, (y0 - 5 * j) as i32),
        decreases items.len() - k,
    {
        let item = &items[k];
        proof {
            assert(item.quantity.wf() && item.unit_price.wf() && item.amount.wf());
        }
        let desc = truncate_description(item.description.as_str(), 50);
        let ghost before = ops@;
        ops.push(text_op(desc, 8, 20, y, false));
        ops.push(text_op(item.quantity.to_text(), 8, 110, y, false));
        ops.push(text_op(format_currency(&item.unit_price, currency.as_str()), 8, 130, y, false));
        ops.push(text_op(format_currency(&item.amount, currency.as_str()), 8, 165, y, false));
        proof {
            assert(ops@.subrange(0, start as int) =~= before.subrange(0, start as int));
            assert forall|j: int| 0 <= j < k + 1 implies row_drawn(ops@, start + 4 * j, #[trigger] items@[j], currency@, (y0 - 5 * j) as i32) by {
                if j < k {
                    assert(ops@[start + 4 * j] == before[start + 4 * j]);
                    assert(ops@[start + 4 * j + 1] == before[start + 4 * j + 1]);
                    assert(ops@[start + 4 * j + 2] == before[start + 4 * j + 2]);
                    assert(ops@[start + 4 * j + 3] == before[start + 4 * j + 3]);
                }
            }
        }
        y = y - 5;
        k = k + 1;
        if y < 40 {
            break;
        }
    }
    (k, y)
}

/// Heights of the blocks above the item rows: the billing block moves down 5 mm for an
/// address line and 5 mm for a city line.
pub open spec fn rows_start(c: Customer) -> int {
    let after_bill_to = 229 - (if c.billing_address is Some {
        5int
    } else {
        0int
    }) - (if city_state_text(c).len() > 0 {
        5int
    } else {
        0int
    });
    after_bill_to - 5 - 10 - 3 - 6
}

/// The page of an invoice: title `Invoice <number>`; the heading, number and status;
/// the billing block (name, email, address, city line when present); issue and due dates;
/// the item table, whose rows are those `item_rows` draws from `rows_start`; totals;
/// notes; and the closing line. `None` when a date cannot be printed.
/// What `invoice_layout` gives for an invoice, its customer and its lines.
pub open spec fn layout_outcome(invoice: Invoice, customer: Customer, items: Seq<InvoiceItem>, r: Option<InvoicePdfLayout>) -> bool {
    &&& (invoice.issued_at matches Some(t) ==> utc_text(t as int, ymd_pattern()) is Some)
            && (invoice.due_at matches Some(t) ==> utc_text(t as int, ymd_pattern()) is Some) <==> r is Some
    &&& r matches Some(l) ==> {
            &&& l.title@ == "Invoice "@ + invoice.invoice_number@
            &&& draws(l.ops@[0], "INVOICE"@, 20, 20, 270, true)
            &&& draws(l.ops@[1], invoice.invoice_number@, 12, 20, 260, false)
            &&& draws(l.ops@[2], "Status: "@ + invoice.status.debug_text(), 10, 140, 260, false)
            &&& draws(l.ops@[3], "Bill To:"@, 10, 20, 245, true)
            &&& draws(l.ops@[4], customer.name@, 10, 20, 239, false)
            &&& draws(l.ops@[5], customer.email@, 9, 20, 234, false)
            &&& draws(l.ops@.last(), "Thank you for your business."@, 8, 20, 20, false)
            &&& l.rows == rows_that_fit(items.len() as int, rows_start(customer))
            &&& l.first_row + 4 * l.rows <= l.ops@.len()
            &&& forall|k: int| 0 <= k < l.rows ==> row_drawn(
                l.ops@,
                l.first_row + 4 * k,
                #[trigger] items[k],
                invoice.currency@,
                (rows_start(customer) - 5 * k) as i32,
            )
            &&& dates_drawn(l.ops@, invoice, customer)
            &&& totals_drawn(l.ops@, invoice, customer, l.first_row + 4 * l.rows, l.rows as int)
        }
}

/// Where the dates block of a page starts: after the six heading and billing lines, the
/// address line and the city line when present.
pub open spec fn dates_index(c: Customer) -> int {
    6 + (if c.billing_address is Some {
        1int
    } else {
        0int
    }) + (if city_state_text(c).len() > 0 {
        1int
    } else {
        0int
    })
}

/// The dates block: the `Dates:` label, then `Issued: YYYY-MM-DD` when the invoice was
/// issued, then `Due: YYYY-MM-DD` when it has a due date, 6 mm apart above the table.
pub open spec fn dates_drawn(ops: Seq<PdfOp>, invoice: Invoice, customer: Customer) -> bool {
    let d = dates_index(customer);
    let y = rows_start(customer);
    let due_at = d + 1 + (if invoice.issued_at is Some {
        1int
    } else {
        0int
    });
    &&& d < ops.len()
    &&& draws(ops[d], "Dates:"@, 10, 120, (y + 39) as i32, true)
    &&& (invoice.issued_at matches Some(t) ==> d + 1 < ops.len() && draws(
        ops[d + 1],
        "Issued: "@ + utc_text(t as int, ymd_pattern()).unwrap(),
        9,
        120,
        (y + 33) as i32,
        false,
    ))
    &&& (invoice.due_at matches Some(t) ==> due_at < ops.len() && draws(
        ops[due_at],
        "Due: "@ + utc_text(t as int, ymd_pattern()).unwrap(),
        9,
        120,
        (y + 27) as i32,
        false,
    ))
}

/// The totals block, from `t` (just after the item rows): a rule 5 mm below the last
/// row, then `Subtotal:` and `Tax:` with their amounts, `Total:` with its amount in bold,
/// the amounts at 165 mm; then, when the invoice has notes, `Notes:` and the notes; and
/// the closing line last.
pub open spec fn totals_drawn(ops: Seq<PdfOp>, invoice: Invoice, customer: Customer, t: int, rows: int) -> bool {
    let y = rows_start(customer) - 5 * rows - 5;
    let cur = invoice.currency@;
    &&& t + 8 <= ops.len()
    &&& ops[t] == PdfOp::Rule(PdfRule { x1_mm: 110, x2_mm: 190, y_mm: y as i32 })
    &&& draws(ops[t + 1], "Subtotal:"@, 9, 130, (y - 6) as i32, false)
    &&& draws(ops[t + 2], currency_text(invoice.subtotal, cur), 9, 165, (y - 6) as i32, false)
    &&& draws(ops[t + 3], "Tax:"@, 9, 130, (y - 11) as i32, false)
    &&& draws(ops[t + 4], currency_text(invoice.tax, cur), 9, 165, (y - 11) as i32, false)
    &&& draws(ops[t + 5], "Total:"@, 10, 130, (y - 17) as i32, true)
    &&& draws(ops[t + 6], currency_text(invoice.total, cur), 10, 165, (y - 17) as i32, true)
    &&& (invoice.notes matches Some(n) ==> ops.len() == t + 10 && draws(
        ops[t + 7],
        "Notes:"@,
        9,
        20,
        (y - 32) as i32,
        true,
    ) && draws(ops[t + 8], n@, 8, 20, (y - 37) as i32, false))
    &&& (invoice.notes is None ==> ops.len() == t + 8)
}

#[verifier::rlimit(40)]
#[verifier::spinoff_prover]
pub fn invoice_layout(invoice: &Invoice, customer: &Customer, items: &Vec<InvoiceItem>) -> (r:
    Option<InvoicePdfLayout>)
    requires
        items_wf(items@),
        invoice.subtotal.wf(),
        invoice.tax.wf(),
        invoice.total.wf(),
    ensures
        layout_outcome(*invoice, *customer, items@, r),
{
    let mut title: Vec<char> = Vec::new();
    extend_str(&mut title, "Invoice ");
    extend_str(&mut title, invoice.invoice_number.as_str());
    let mut ops: Vec<PdfOp> = Vec::new();
    let mut y: i32 = 270;
    ops.push(text_op(owned("INVOICE"), 20, 20, y, true));
    y = y - 10;
    ops.push(text_op(invoice.invoice_number.clone(), 12, 20, y, false));
    let mut status: Vec<char> = Vec::new();
    extend_str(&mut status, "Status: ");
    let name = invoice.status.debug_name();
    extend_str(&mut status, name.as_str());
    ops.push(text_op(string_of(&status), 10, 140, y, false));
    y = y - 15;
    ops.push(text_op(owned("Bill To:"), 10, 20, y, true));
    y = y - 6;
    ops.push(text_op(customer.name.clone(), 10, 20, y, false));
    y = y - 5;
    ops.push(text_op(customer.email.clone(), 9, 20, y, false));
    let ghost head = ops@;
    y = y - 5;
    if let Some(addr) = &customer.billing_address {
        ops.push(text_op(addr.clone(), 9, 20, y, false));
        y = y - 5;
    }
    let city_state = city_state_line(customer);
    if city_state.as_str().unicode_len() > 0 {
        ops.push(text_op(city_state, 9, 20, y, false));
        y = y - 5;
    }
    y = y - 5;
    let ghost d = ops@.len() as int;
    proof {
        assert(d == dates_index(*customer));
        assert(y == rows_start(*customer) + 19);
    }
    ops.push(text_op(owned("Dates:"), 10, 120, y + 20, true));
    if let Some(issued) = invoice.issued_at {
        let d = match format_ymd(issued) {
            Some(d) => d,
            None => {
                return None;
            },
        };
        let mut t: Vec<char> = Vec::new();
        extend_str(&mut t, "Issued: ");
        extend_str(&mut t, d.as_str());
        ops.push(text_op(string_of(&t), 9, 120, y + 14, false));
    }
    if let Some(due) = invoice.due_at {
        let d = match format_ymd(due) {
            Some(d) => d,
            None => {
                return None;
            },
        };
        let mut t: Vec<char> = Vec::new();
        extend_str(&mut t, "Due: ");
        extend_str(&mut t, d.as_str());
        ops.push(text_op(string_of(&t), 9, 120, y + 8, false));
    }
    y = y - 10;
    ops.push(text_op(owned("Description"), 9, 20, y, true));
    ops.push(text_op(owned("Qty"), 9, 110, y, true));
    ops.push(text_op(owned("Unit Price"), 9, 130, y, true));
    ops.push(text_op(owned("Amount"), 9, 165, y, true));
    y = y - 3;
    ops.push(PdfOp::Rule(PdfRule { x1_mm: 20, x2_mm: 190, y_mm: y }));
    y = y - 6;
    proof {
        assert(y == rows_start(*customer));
    }
    let first_row = ops.len();
    let ghost s = ops@.len() as int;
    let ghost before_rows = ops@;
    proof {
        assert forall|i: int| 0 <= i < 6 implies before_rows[i] == head[i] by {}
    }
    let (rows, y_after) = item_rows(&mut ops, items, &invoice.currency, y);
    let ghost after_rows = ops@;
    proof {
        assert forall|i: int| 0 <= i < s implies after_rows[i] == before_rows[i] by {
            assert(after_rows.subrange(0, s)[i] == before_rows[i]);
        }
        assert(dates_drawn(after_rows, *invoice, *customer));
    }
    y = y_after - 5;
    let ghost t = ops@.len() as int;
    ops.push(PdfOp::Rule(PdfRule { x1_mm: 110, x2_mm: 190, y_mm: y }));
    y = y - 6;
    ops.push(text_op(owned("Subtotal:"), 9, 130, y, false));
    ops.push(text_op(format_currency(&invoice.subtotal, invoice.currency.as_str()), 9, 165, y, false));
    y = y - 5;
    ops.push(text_op(owned("Tax:"), 9, 130, y, false));
    ops.push(text_op(format_currency(&invoice.tax, invoice.currency.as_str()), 9, 165, y, false));
    y = y - 6;
    ops.push(text_op(owned("Total:"), 10, 130, y, true));
    ops.push(text_op(format_currency(&invoice.total, invoice.currency.as_str()), 10, 165, y, true));
    y = y - 15;
    if let Some(notes) = &invoice.notes {
        ops.push(text_op(owned("Notes:"), 9, 20, y, true));
        y = y - 5;
        ops.push(text_op(notes.clone(), 8, 20, y, false));
    }
    ops.push(text_op(owned("Thank you for your business."), 8, 20, 20, false));
    proof {
        assert forall|i: int| 0 <= i < 6 implies ops@[i] == head[i] by {
            assert(ops@[i] == after_rows[i]);
        }
        assert(t == first_row + 4 * rows);
        assert(dates_drawn(ops@, *invoice, *customer)) by {
            assert(ops@[d] == after_rows[d]);
            assert(ops@[d + 1] == after_rows[d + 1]);
            assert(d + 2 < after_rows.len() ==> ops@[d + 2] == after_rows[d + 2]);
        }
        assert(totals_drawn(ops@, *invoice, *customer, t, rows as int));
        let n = rows_that_fit(items@.len() as int, rows_start(*customer));
        assert forall|k: int| 0 <= k < n implies row_drawn(
            ops@,
            s + 4 * k,
            #[trigger] items@[k],
            invoice.currency@,
            (rows_start(*customer) - 5 * k) as i32,
        ) by {
            assert(ops@[s + 4 * k] == after_rows[s + 4 * k]);
            assert(ops@[s + 4 * k + 1] == after_rows[s + 4 * k + 1]);
            assert(ops@[s + 4 * k + 2] == after_rows[s + 4 * k + 2]);
            assert(ops@[s + 4 * k + 3] == after_rows[s + 4 * k + 3]);
        }
    }
    Some(InvoicePdfLayout { title: string_of(&title), ops, first_row, rows })
}

/// Prepares the page of an invoice: the request must name an invoice, the invoice's
/// customer must exist; `Internal` when a date cannot be printed.
pub fn generate_invoice_pdf_layout<R: InvoicePdfRepository>(repo: &R, req: GenerateInvoicePdfRequest) -> (r:
    Result<InvoicePdfLayout, BillingError>)
    ensures
        req.invoice_id@.len() == 0 ==> (r matches Err(BillingError::Validation(m)) && m@
            == "invoice_id is required"@),
        req.invoice_id@.len() != 0 ==> exists|ia: Result<Invoice, BillingError>|
            #[trigger] repo.get_invoice_answer(req.invoice_id@, ia) && match ia {
                Err(e) => r == Err::<InvoicePdfLayout, BillingError>(e),
                Ok(inv) => exists|ca: Result<Option<Customer>, BillingError>|
                    #[trigger] repo.get_customer_answer(inv.customer_id@, ca) && match ca {
                        Err(e) => r == Err::<InvoicePdfLayout, BillingError>(e),
                        Ok(None) => r matches Err(BillingError::NotFound { entity, id }) && entity@
                            == "customer"@ && id@ == inv.customer_id@,
                        Ok(Some(cust)) => exists|la: Result<Vec<InvoiceItem>, BillingError>|
                            #[trigger] repo.list_invoice_items_answer(req.invoice_id@, la) && match la {
                                Err(e) => r == Err::<InvoicePdfLayout, BillingError>(e),
                                Ok(items) => page_outcome(inv, cust, items@, r),
                            },
                    },
            },
{
    if req.invoice_id.as_str().unicode_len() == 0 {
        return Err(validation("invoice_id is required"));
    }
    let invoice = repo.get_invoice(req.invoice_id.as_str())?;
    let customer = match repo.get_customer(invoice.customer_id.as_str())? {
        Some(c) => c,
        None => {
            return Err(not_found("customer", invoice.customer_id.as_str()));
        },
    };
    let items = repo.list_invoice_items(req.invoice_id.as_str())?;
    proof {
        assert(repo.get_invoice_answer(req.invoice_id@, Ok(invoice)));
        assert(repo.get_customer_answer(invoice.customer_id@, Ok(Some(customer))));
        assert(repo.list_invoice_items_answer(req.invoice_id@, Ok(items)));
    }
    let mut i: usize = 0;
    while i < items.len()
        invariant
            i <= items.len(),
            req.invoice_id@.len() != 0,
            repo.get_invoice_answer(req.invoice_id@, Ok(invoice)),
            repo.get_customer_answer(invoice.customer_id@, Ok(Some(customer))),
            repo.list_invoice_items_answer(req.invoice_id@, Ok(items)),
            forall|j: int| 0 <= j < i ==> (#[trigger] items@[j]).quantity.wf() && items@[j].unit_price.wf()
                && items@[j].amount.wf(),
        decreases items.len() - i,
    {
        if !(items[i].quantity.is_valid() && items[i].unit_price.is_valid() && items[i].amount.is_valid()) {
            proof {
                assert(!items_wf(items@)) by {
                    assert(!(items@[i as int].quantity.wf() && items@[i as int].unit_price.wf()
                        && items@[i as int].amount.wf()));
                }
            }
            return Err(crate::error::overflow());
        }
        i = i + 1;
    }
    if !(invoice.subtotal.is_valid() && invoice.tax.is_valid() && invoice.total.is_valid()) {
        return Err(crate::error::overflow());
    }
    let layout = invoice_layout(&invoice, &customer, &items);
    proof {
        assert(layout_outcome(invoice, customer, items@, layout));
    }
    match layout {
        Some(l) => Ok(l),
        None => Err(crate::error::internal("invoice date out of range")),
    }
}

} // verus!
