//! The status report: which amounts of a list count, and the message that
//! the chat channel gets.

use crate::json::{items_view, Json, JsonView};
use crate::text::{decimal, push_decimal};
use vstd::prelude::*;

verus! {

/// Opens the report, up to the account label.
pub const REPORT_HEAD: &'static str = "<b>✨ Account Status (";

/// From the account label to the balance.
pub const REPORT_BALANCE: &'static str = ") ✨</b>\n<b>💰 Balance:</b> <code>";

/// From the balance to the number of open positions.
pub const REPORT_POSITIONS: &'static str = " USDT</code>\n<b>⏱️ Timeframe:</b> <code>1m</code>\n<b>📂 Open Positions:</b> <code>";

/// From the number of open positions to the sum over the closed trades.
pub const REPORT_LAST_PNL: &'static str = "</code>\n<b>💰 Last 100 P&L:</b> <code>";

/// From the sum over the closed trades to the sum over the open positions.
pub const REPORT_CURRENT_PNL: &'static str = " USDT</code>\n<b>💹 Current P&L:</b> <code>";

/// From the sum over the open positions to the time of the report.
pub const REPORT_GENERATED: &'static str = " USDT</code>\n\n<i>🔸 Generated at: <code>";

/// Closes the report.
pub const REPORT_TAIL: &'static str = "</code></i>";

/// What the report shows in place of a balance that could not be had.
pub const BALANCE_UNAVAILABLE: &'static str = "Error";

/// The amount that `item` holds under `field`: the characters of the string
/// there; nothing where the item has no such member or holds no string
/// there.
pub open spec fn amount_of(item: JsonView, field: Seq<char>) -> Option<Seq<char>> {
    item.member(field).as_str()
}

/// The amounts that `items` hold under `field`, in order: each item that
/// holds one gives it, each other item gives nothing.
pub open spec fn selected_amounts(items: Seq<JsonView>, field: Seq<char>) -> Seq<Seq<char>>
    decreases items.len(),
{
    if items.len() == 0 {
        Seq::empty()
    } else {
        let rest = selected_amounts(items.drop_last(), field);
        match amount_of(items.last(), field) {
            Some(text) => rest.push(text),
            None => rest,
        }
    }
}

/// The characters of each of a list of texts.
pub open spec fn texts_view(texts: Seq<String>) -> Seq<Seq<char>> {
    Seq::new(texts.len(), |i: int| texts[i]@)
}

/// The report: the account label, the balance, the number of open
/// positions, the two sums and the time, each at its place in the message.
pub open spec fn report_text(
    account_label: Seq<char>,
    balance: Seq<char>,
    open_positions: nat,
    last_pnl: Seq<char>,
    current_pnl: Seq<char>,
    generated_at: Seq<char>,
) -> Seq<char> {
    REPORT_HEAD@ + account_label + REPORT_BALANCE@ + balance + REPORT_POSITIONS@ + decimal(
        open_positions,
    ) + REPORT_LAST_PNL@ + last_pnl + REPORT_CURRENT_PNL@ + current_pnl + REPORT_GENERATED@
        + generated_at + REPORT_TAIL@
}

/// The amounts that `items` hold under `field`, in order.
pub fn select_amounts(items: &Vec<Json>, field: &str) -> (amounts: Vec<String>)
    ensures
        texts_view(amounts@) == selected_amounts(items_view(items@), field@),
        amounts@.len() <= items@.len(),
{
    let ghost all = items_view(items@);
    let mut amounts: Vec<String> = Vec::new();
    let mut i: usize = 0;
    assert(all.subrange(0, 0) =~= Seq::<JsonView>::empty());
    assert(texts_view(amounts@) =~= Seq::<Seq<char>>::empty());
    while i < items.len()
        invariant
            i <= items.len(),
            all == items_view(items@),
            amounts@.len() <= i,
            texts_view(amounts@) == selected_amounts(all.subrange(0, i as int), field@),
        decreases items.len() - i,
    {
        let ghost before = texts_view(amounts@);
        proof {
            let next = all.subrange(0, i + 1);
            assert(next.drop_last() =~= all.subrange(0, i as int));
            assert(next.last() == items@[i as int]@);
        }
        let amount = match items[i].get(field) {
            Some(value) => value.as_str(),
            None => None,
        };
        match amount {
            Some(text) => {
                amounts.push(String::from_str(text));
                assert(texts_view(amounts@) =~= before.push(text@));
            },
            None => {},
        }
        i += 1;
    }
    assert(all.subrange(0, i as int) =~= all);
    amounts
}

/// The report as one message.
pub fn format_report(
    account_label: &str,
    balance: &str,
    open_positions: usize,
    last_pnl: &str,
    current_pnl: &str,
    generated_at: &str,
) -> (message: String)
    ensures
        message@ == report_text(
            account_label@,
            balance@,
            open_positions as nat,
            last_pnl@,
            current_pnl@,
            generated_at@,
        ),
        message@.len() > 0,
{
    let mut message = String::from_str(REPORT_HEAD);
    message.append(account_label);
    message.append(REPORT_BALANCE);
    message.append(balance);
    message.append(REPORT_POSITIONS);
    push_decimal(&mut message, open_positions as u128);
    message.append(REPORT_LAST_PNL);
    message.append(last_pnl);
    message.append(REPORT_CURRENT_PNL);
    message.append(current_pnl);
    message.append(REPORT_GENERATED);
    message.append(generated_at);
    message.append(REPORT_TAIL);
    proof {
        lemma_report_is_never_empty(
            account_label@,
            balance@,
            open_positions as nat,
            last_pnl@,
            current_pnl@,
            generated_at@,
        );
    }
    message
}

/// A report is never empty, whatever it is made from.
pub proof fn lemma_report_is_never_empty(
    account_label: Seq<char>,
    balance: Seq<char>,
    open_positions: nat,
    last_pnl: Seq<char>,
    current_pnl: Seq<char>,
    generated_at: Seq<char>,
)
    ensures
        report_text(
            account_label,
            balance,
            open_positions,
            last_pnl,
            current_pnl,
            generated_at,
        ).len() > 0,
{
    reveal_strlit("</code></i>");
}

/// Whether `item` holds an amount under `field`.
pub open spec fn holds_amount(item: JsonView, field: Seq<char>) -> bool {
    amount_of(item, field) is Some
}

/// The amounts of two lists, one after the other, are the amounts of the
/// first followed by the amounts of the second.
pub proof fn lemma_selected_amounts_concat(a: Seq<JsonView>, b: Seq<JsonView>, field: Seq<char>)
    ensures
        selected_amounts(a + b, field) == selected_amounts(a, field) + selected_amounts(b, field),
    decreases b.len(),
{
    if b.len() == 0 {
        assert(a + b =~= a);
        assert(selected_amounts(a, field) + selected_amounts(b, field) =~= selected_amounts(
            a,
            field,
        ));
    } else {
        lemma_selected_amounts_concat(a, b.drop_last(), field);
        assert((a + b).drop_last() =~= a + b.drop_last());
        assert((a + b).last() == b.last());
        assert(selected_amounts(a + b, field) =~= selected_amounts(a, field) + selected_amounts(
            b,
            field,
        ));
    }
}

/// Items that hold no amount count for nothing: the amounts of a list are
/// the amounts of what is left of it once every such item is taken out.
pub proof fn lemma_malformed_items_are_skipped(items: Seq<JsonView>, field: Seq<char>)
    ensures
        selected_amounts(items, field) == selected_amounts(
            items.filter(|item: JsonView| holds_amount(item, field)),
            field,
        ),
    decreases items.len(),
{
    let keep = |item: JsonView| holds_amount(item, field);
    reveal(Seq::filter);
    if items.len() > 0 {
        lemma_malformed_items_are_skipped(items.drop_last(), field);
        let kept = items.drop_last().filter(keep);
        if keep(items.last()) {
            assert(items.filter(keep) == kept.push(items.last()));
            assert(kept.push(items.last()).drop_last() =~= kept);
        } else {
            assert(items.filter(keep) == kept);
        }
    }
}

/// One more item that holds no amount, put anywhere into a list, leaves the
/// amounts of the list as they were.
pub proof fn lemma_malformed_item_adds_nothing(
    items: Seq<JsonView>,
    at: int,
    item: JsonView,
    field: Seq<char>,
)
    requires
        0 <= at <= items.len(),
        !holds_amount(item, field),
    ensures
        selected_amounts(items.insert(at, item), field) == selected_amounts(items, field),
{
    let head = items.subrange(0, at);
    let tail = items.subrange(at, items.len() as int);
    assert(items.insert(at, item) =~= (head + seq![item]) + tail);
    assert(items =~= head + tail);
    lemma_selected_amounts_concat(head + seq![item], tail, field);
    lemma_selected_amounts_concat(head, seq![item], field);
    lemma_selected_amounts_concat(head, tail, field);
    assert(seq![item].drop_last() =~= Seq::<JsonView>::empty());
    assert(seq![item].last() == item);
    assert(selected_amounts(Seq::<JsonView>::empty(), field) =~= Seq::<Seq<char>>::empty());
    assert(selected_amounts(seq![item], field) =~= Seq::<Seq<char>>::empty());
    assert(selected_amounts(head, field) + Seq::<Seq<char>>::empty() =~= selected_amounts(
        head,
        field,
    ));
}

} // verus!
