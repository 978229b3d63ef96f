//! The journal entries that imports make.

use vstd::prelude::*;

use crate::date::Date;
use crate::domain;
use crate::domain::{Account, AccountType};
use crate::lists;
use crate::money;
use crate::text;
use crate::tui::views::bank_import;
use crate::tui::views::bank_import::ParsedTransaction;
use crate::tui::views::csv_import;
use crate::tui::views::csv_import::ImportConfig;

verus! {

/// A journal entry with two lines in dollars: an amount on the account that is
/// imported into, and the opposite amount on the account that balances it.
pub struct ImportEntry {
    pub date: Date,
    pub memo: String,
    pub target_account_id: String,
    pub target_amount: i64,
    pub offset_account_id: String,
    pub offset_amount: i64,
}

/// The meaning of an imported journal entry.
#[verifier::ext_equal]
pub ghost struct EntryPlan {
    pub date: Date,
    pub memo: Seq<char>,
    pub target: Seq<char>,
    pub target_amount: int,
    pub offset: Seq<char>,
    pub offset_amount: int,
}

impl View for ImportEntry {
    type V = EntryPlan;

    open spec fn view(&self) -> EntryPlan {
        EntryPlan {
            date: self.date,
            memo: self.memo@,
            target: self.target_account_id@,
            target_amount: self.target_amount as int,
            offset: self.offset_account_id@,
            offset_amount: self.offset_amount as int,
        }
    }
}

/// The meanings of imported journal entries.
pub open spec fn entry_plans(v: Seq<ImportEntry>) -> Seq<EntryPlan> {
    v.map_values(|e: ImportEntry| e@)
}

/// The entry for a row of a file. Money that comes in is a debit of an asset
/// and a credit of any other account.
pub open spec fn csv_plan(
    row: csv_import::RowData,
    target: Seq<char>,
    offset: Seq<char>,
    asset: bool,
) -> EntryPlan {
    let opposite = money::wrap64(-row.amount);
    EntryPlan {
        date: row.date,
        memo: row.description,
        target,
        target_amount: if asset {
            row.amount
        } else {
            opposite
        },
        offset,
        offset_amount: if asset {
            opposite
        } else {
            row.amount
        },
    }
}

/// The entry for a transaction of a bank: what comes in is a debit, what goes
/// out a credit.
pub open spec fn bank_plan(
    t: bank_import::TransactionData,
    target: Seq<char>,
    offset: Seq<char>,
) -> EntryPlan {
    EntryPlan {
        date: t.date,
        memo: t.description,
        target,
        target_amount: t.amount,
        offset,
        offset_amount: money::wrap64(-t.amount),
    }
}

/// The two lines of every imported entry cancel out.
pub proof fn imported_entries_balance(
    row: csv_import::RowData,
    t: bank_import::TransactionData,
    target: Seq<char>,
    offset: Seq<char>,
    asset: bool,
)
    ensures
        money::wrap64(
            csv_plan(row, target, offset, asset).target_amount + csv_plan(
                row,
                target,
                offset,
                asset,
            ).offset_amount,
        ) == 0,
        money::wrap64(
            bank_plan(t, target, offset).target_amount + bank_plan(t, target, offset).offset_amount,
        ) == 0,
{
    money::wrapping_is_uniform(-row.amount, row.amount);
    money::wrapping_is_uniform(-t.amount, t.amount);
}

// ---- files ----

/// The row that a line of a file gives, if it is not blank and has a date and
/// an amount other than zero.
pub open spec fn imported_row(line: Seq<char>, m: csv_import::Mapping) -> Option<
    csv_import::RowData,
> {
    let fields = csv_import::fields_of(line, m.delimiter);
    let date = csv_import::date_of(csv_import::field_at(fields, m.date));
    let amount = csv_import::amount_of(csv_import::field_at(fields, m.amount));
    if text::trimmed(line).len() > 0 && date is Some && amount is Some && amount->0 != 0 {
        Some(
            csv_import::RowData {
                date: date->0,
                description: csv_import::field_at(fields, m.description),
                amount: amount->0,
            },
        )
    } else {
        None
    }
}

/// The rows that several lines give, in order.
pub open spec fn imported_rows(lines: Seq<Seq<char>>, m: csv_import::Mapping) -> Seq<
    csv_import::RowData,
>
    decreases lines.len(),
{
    if lines.len() == 0 {
        Seq::empty()
    } else {
        let before = imported_rows(lines.drop_last(), m);
        match imported_row(lines.last(), m) {
            Some(row) => before.push(row),
            None => before,
        }
    }
}

/// What is imported is what the review showed, in the same order.
pub proof fn review_shows_what_is_imported(lines: Seq<Seq<char>>, m: csv_import::Mapping)
    ensures
        imported_rows(lines, m) == csv_import::summary_of(lines, m).parsed,
    decreases lines.len(),
{
    if lines.len() > 0 {
        review_shows_what_is_imported(lines.drop_last(), m);
    }
}

/// Whether an account counts as an asset: it is one, or it is not known.
pub open spec fn counts_as_asset(accounts: Seq<Account>, id: Seq<char>) -> bool {
    match domain::place_of(accounts, id) {
        Some(i) => accounts[i as int].account_type == AccountType::Asset,
        None => true,
    }
}

/// The columns and the delimiter of a confirmed import.
pub open spec fn mapping_of(config: ImportConfig) -> csv_import::Mapping {
    csv_import::Mapping {
        delimiter: config.delimiter,
        date: config.date_column as int,
        description: config.description_column as int,
        amount: config.amount_column as int,
    }
}

/// The entries that a file gives.
pub open spec fn csv_plans(
    content: Seq<char>,
    config: ImportConfig,
    accounts: Seq<Account>,
    target: Seq<char>,
    offset: Seq<char>,
) -> Seq<EntryPlan> {
    let lines = csv_import::data_lines(content, config.skip_lines as nat, config.has_header);
    let asset = counts_as_asset(accounts, target);
    imported_rows(lines, mapping_of(config)).map_values(
        |row: csv_import::RowData| csv_plan(row, target, offset, asset),
    )
}

/// Every row that the review shows makes one entry, in order, with its day and
/// its description: the amount goes to the chosen account as a debit if that is
/// an asset, else as a credit, and the opposite to the other account.
pub proof fn every_reviewed_row_is_posted(
    content: Seq<char>,
    config: ImportConfig,
    accounts: Seq<Account>,
    target: Seq<char>,
    offset: Seq<char>,
)
    ensures
        ({
            let rows = csv_import::summary_of(
                csv_import::data_lines(content, config.skip_lines as nat, config.has_header),
                mapping_of(config),
            ).parsed;
            let plans = csv_plans(content, config, accounts, target, offset);
            &&& plans.len() == rows.len()
            &&& forall|i: int|
                0 <= i < plans.len() ==> {
                    let plan = #[trigger] plans[i];
                    let opposite = money::wrap64(-rows[i].amount);
                    &&& plan.date == rows[i].date
                    &&& plan.memo == rows[i].description
                    &&& plan.target == target
                    &&& plan.offset == offset
                    &&& counts_as_asset(accounts, target) ==> plan.target_amount
                        == rows[i].amount && plan.offset_amount == opposite
                    &&& !counts_as_asset(accounts, target) ==> plan.target_amount == opposite
                        && plan.offset_amount == rows[i].amount
                }
        }),
{
    review_shows_what_is_imported(
        csv_import::data_lines(content, config.skip_lines as nat, config.has_header),
        mapping_of(config),
    );
}

/// What an import needs before it starts: the text of the file and the account
/// to import into.
pub fn csv_import_inputs(file: Result<String, String>, config: &ImportConfig) -> (r: Result<
    (String, String),
    String,
>)
    ensures
        match r {
            Ok((content, target)) => file == Ok::<String, String>(content) && text::opt_text(
                config.target_account_id,
            ) == Some(target@),
            Err(message) => match file {
                Err(e) => message@ == "Failed to read file: "@ + e@,
                Ok(_) => config.target_account_id is None && message@
                    == "Target account is required for CSV import"@,
            },
        },
{
    match file {
        Err(e) => Err(text::cat2("Failed to read file: ", e.as_str())),
        Ok(content) => match &config.target_account_id {
            Some(id) => Ok((content, id.clone())),
            None => Err(text::owned("Target account is required for CSV import")),
        },
    }
}

fn is_asset(accounts: &Vec<Account>, id: &str) -> (r: bool)
    ensures
        r == counts_as_asset(accounts@, id@),
        forall|i: int|
            0 <= i < accounts@.len() && (#[trigger] accounts@[i]).id@ == id@ && (forall|j: int|
                0 <= j < i ==> (#[trigger] accounts@[j]).id@ != id@) ==> r == (
            accounts@[i].account_type is Asset),
        (forall|i: int| 0 <= i < accounts@.len() ==> (#[trigger] accounts@[i]).id@ != id@) ==> r,
{
    match domain::find_account(accounts, id) {
        Some(i) => accounts[i].account_type == AccountType::Asset,
        None => true,
    }
}

/// The entry that a line of a file gives, if any.
fn entry_of_line(
    line: &str,
    config: &ImportConfig,
    target: &str,
    offset: &str,
    asset: bool,
) -> (r: Option<ImportEntry>)
    ensures
        match r {
            Some(e) => imported_row(line@, mapping_of(*config)) is Some && e@ == csv_plan(
                imported_row(line@, mapping_of(*config))->0,
                target@,
                offset@,
                asset,
            ),
            None => imported_row(line@, mapping_of(*config)) is None,
        },
{
    let bare = text::trim(line);
    if bare.as_str().is_empty() {
        return None;
    }
    let fields = csv_import::parse_delimited_line(line, config.delimiter);
    let date_field = csv_import::field_or_empty(&fields, config.date_column);
    let memo = csv_import::field_or_empty(&fields, config.description_column);
    let amount_field = csv_import::field_or_empty(&fields, config.amount_column);
    let date = match csv_import::parse_date(date_field.as_str()) {
        Some(d) => d,
        None => {
            return None;
        },
    };
    let amount: i64 = match csv_import::parse_amount(amount_field.as_str()) {
        Some(a) => a,
        None => {
            return None;
        },
    };
    if amount == 0 {
        return None;
    }
    let opposite: i64 = money::negated(amount);
    Some(
        ImportEntry {
            date,
            memo,
            target_account_id: text::owned(target),
            target_amount: if asset {
                amount
            } else {
                opposite
            },
            offset_account_id: text::owned(offset),
            offset_amount: if asset {
                opposite
            } else {
                amount
            },
        },
    )
}

/// The journal entries that a file gives, to be posted one by one.
pub fn perform_csv_import(
    content: &str,
    config: &ImportConfig,
    accounts: &Vec<Account>,
    target: &str,
    offset: &str,
) -> (r: Vec<ImportEntry>)
    ensures
        entry_plans(r@) == csv_plans(content@, *config, accounts@, target@, offset@),
{
    let asset: bool = is_asset(accounts, target);
    let lines = text::lines(content);
    let ghost all = text::texts(lines@);
    let ghost m = mapping_of(*config);
    let ghost f = |row: csv_import::RowData| csv_plan(row, target@, offset@, asset);
    let ghost data = csv_import::data_lines(
        content@,
        config.skip_lines as nat,
        config.has_header,
    );
    let mut out: Vec<ImportEntry> = Vec::new();
    assert(entry_plans(out@) =~= Seq::<EntryPlan>::empty());
    if config.skip_lines >= lines.len() {
        assert(imported_rows(data, m).map_values(f) =~= Seq::<EntryPlan>::empty());
        return out;
    }
    let from: usize = if config.has_header {
        config.skip_lines + 1
    } else {
        config.skip_lines
    };
    let mut i: usize = from;
    proof {
        assert(data.take(0) =~= Seq::<Seq<char>>::empty());
        assert(data =~= all.skip(from as int));
        assert(imported_rows(data.take(0), m).map_values(f) =~= Seq::<EntryPlan>::empty());
    }
    while i < lines.len()
        invariant
            from <= i <= lines@.len(),
            all == text::texts(lines@),
            data == all.skip(from as int),
            m == mapping_of(*config),
            f == (|row: csv_import::RowData| csv_plan(row, target@, offset@, asset)),
            entry_plans(out@) == imported_rows(data.take(i - from), m).map_values(f),
        decreases lines@.len() - i,
    {
        proof {
            let upto = data.take(i - from + 1);
            assert(upto.drop_last() =~= data.take(i - from));
            assert(upto.last() == lines@[i as int]@);
        }
        let ghost before = entry_plans(out@);
        match entry_of_line(lines[i].as_str(), config, target, offset, asset) {
            Some(e) => {
                out.push(e);
                assert(entry_plans(out@) =~= before.push(e@));
                assert(imported_rows(data.take(i - from + 1), m).map_values(f) =~= before.push(
                    e@,
                ));
            },
            None => {},
        }
        i = i + 1;
    }
    assert(data.take(i - from) =~= data);
    out
}

// ---- banks ----

/// The entries that transactions of a bank give: one for each selected one.
pub open spec fn bank_plans(
    transactions: Seq<bank_import::TransactionData>,
    target: Seq<char>,
    offset: Seq<char>,
) -> Seq<EntryPlan> {
    transactions.filter(|t: bank_import::TransactionData| t.selected).map_values(
        |t: bank_import::TransactionData| bank_plan(t, target, offset),
    )
}

/// Every selected transaction makes one entry, in order, with its day and its
/// description: its amount goes to the chosen account with the same sign, and
/// the opposite to the other account.
pub proof fn every_selected_transaction_is_posted(
    transactions: Seq<bank_import::TransactionData>,
    target: Seq<char>,
    offset: Seq<char>,
)
    ensures
        ({
            let selected = transactions.filter(|t: bank_import::TransactionData| t.selected);
            let plans = bank_plans(transactions, target, offset);
            &&& plans.len() == selected.len()
            &&& forall|i: int|
                0 <= i < plans.len() ==> {
                    let plan = #[trigger] plans[i];
                    &&& plan.date == selected[i].date
                    &&& plan.memo == selected[i].description
                    &&& plan.target == target
                    &&& plan.target_amount == selected[i].amount
                    &&& plan.offset == offset
                    &&& i64::MIN < selected[i].amount <= i64::MAX ==> plan.offset_amount
                        == -selected[i].amount
                }
        }),
{
}

/// Money that comes in raises the chosen account and money that goes out lowers
/// it: over a whole import the chosen account changes by the sum of the
/// selected transactions, and the other account by the opposite.
pub proof fn bank_import_moves_the_selected_sum(
    transactions: Seq<bank_import::TransactionData>,
    target: Seq<char>,
    offset: Seq<char>,
)
    requires
        forall|i: int|
            0 <= i < transactions.len() ==> i64::MIN < (#[trigger] transactions[i]).amount
                <= i64::MAX,
    ensures
        ({
            let plans = bank_plans(transactions, target, offset);
            let sum = lists::sum_at(
                transactions.len(),
                |i: int|
                    if transactions[i].selected {
                        transactions[i].amount
                    } else {
                        0
                    },
            );
            &&& lists::sum_at(plans.len(), |i: int| plans[i].target_amount) == sum
            &&& lists::sum_at(plans.len(), |i: int| plans[i].offset_amount) == -sum
        }),
    decreases transactions.len(),
{
    reveal(Seq::filter);
    let plans = bank_plans(transactions, target, offset);
    let value = |i: int|
        if transactions[i].selected {
            transactions[i].amount
        } else {
            0
        };
    if transactions.len() > 0 {
        let shorter = transactions.drop_last();
        let fewer = bank_plans(shorter, target, offset);
        assert forall|i: int| 0 <= i < shorter.len() implies i64::MIN < (
        #[trigger] shorter[i]).amount <= i64::MAX by {
            assert(shorter[i] == transactions[i]);
        }
        bank_import_moves_the_selected_sum(shorter, target, offset);
        lists::sums_agree(
            shorter.len(),
            |i: int|
                if shorter[i].selected {
                    shorter[i].amount
                } else {
                    0
                },
            value,
        );
        let n = fewer.len();
        if transactions.last().selected {
            assert(plans =~= fewer.push(bank_plan(transactions.last(), target, offset)));
            lists::sums_agree(
                n,
                |i: int| fewer[i].target_amount,
                |i: int| plans[i].target_amount,
            );
            lists::sums_agree(
                n,
                |i: int| fewer[i].offset_amount,
                |i: int| plans[i].offset_amount,
            );
        } else {
            assert(plans =~= fewer);
        }
    }
}

/// Whether an entry puts a transaction on two accounts.
spec fn posted_as_given(
    e: ImportEntry,
    t: ParsedTransaction,
    target: Seq<char>,
    offset: Seq<char>,
) -> bool {
    &&& e.date == t.date
    &&& e.memo@ == t.description@
    &&& e.target_account_id@ == target
    &&& e.target_amount == t.amount
    &&& e.offset_account_id@ == offset
    &&& t.amount != i64::MIN ==> e.offset_amount == -t.amount
}

/// The journal entries for the selected transactions of a bank, to be posted
/// one by one.
pub fn perform_bank_import(
    transactions: &Vec<ParsedTransaction>,
    target: &str,
    offset: &str,
) -> (r: Vec<ImportEntry>)
    ensures
        entry_plans(r@) == bank_plans(
            bank_import::transaction_views(transactions@),
            target@,
            offset@,
        ),
        ({
            let selected = transactions@.filter(|t: ParsedTransaction| t.selected);
            &&& r@.len() == selected.len()
            &&& forall|i: int|
                0 <= i < r@.len() ==> {
                    let e = #[trigger] r@[i];
                    &&& e.date == selected[i].date
                    &&& e.memo@ == selected[i].description@
                    &&& e.target_account_id@ == target@
                    &&& e.target_amount == selected[i].amount
                    &&& e.offset_account_id@ == offset@
                    &&& selected[i].amount != i64::MIN ==> e.offset_amount == -selected[i].amount
                }
        }),
{
    let ghost picked = |t: ParsedTransaction| t.selected;
    let ghost all = bank_import::transaction_views(transactions@);
    let ghost keep = |t: bank_import::TransactionData| t.selected;
    let ghost f = |t: bank_import::TransactionData| bank_plan(t, target@, offset@);
    let mut out: Vec<ImportEntry> = Vec::new();
    let mut i: usize = 0;
    proof {
        reveal(Seq::filter);
        assert(entry_plans(out@) =~= all.take(0).filter(keep).map_values(f));
        assert(transactions@.take(0).filter(picked) =~= Seq::<ParsedTransaction>::empty());
    }
    while i < transactions.len()
        invariant
            i <= transactions@.len(),
            all == bank_import::transaction_views(transactions@),
            keep == (|t: bank_import::TransactionData| t.selected),
            f == (|t: bank_import::TransactionData| bank_plan(t, target@, offset@)),
            entry_plans(out@) == all.take(i as int).filter(keep).map_values(f),
            picked == (|t: ParsedTransaction| t.selected),
            out@.len() == transactions@.take(i as int).filter(picked).len(),
            forall|k: int|
                0 <= k < out@.len() ==> posted_as_given(
                    #[trigger] out@[k],
                    transactions@.take(i as int).filter(picked)[k],
                    target@,
                    offset@,
                ),
        decreases transactions@.len() - i,
    {
        let t = &transactions[i];
        let ghost before = entry_plans(out@);
        proof {
            reveal(Seq::filter);
            let next = all.take(i + 1);
            assert(next.drop_last() =~= all.take(i as int));
            assert(next.last() == t@);
            assert(keep(t@) == t.selected);
            let upto = transactions@.take(i + 1);
            assert(upto.drop_last() =~= transactions@.take(i as int));
            assert(upto.last() == *t);
            assert(picked(*t) == t.selected);
        }
        if t.selected {
            let e = ImportEntry {
                date: t.date,
                memo: t.description.clone(),
                target_account_id: text::owned(target),
                target_amount: t.amount,
                offset_account_id: text::owned(offset),
                offset_amount: money::negated(t.amount),
            };
            out.push(e);
            assert(entry_plans(out@) =~= before.push(e@));
            assert(all.take(i + 1).filter(keep).map_values(f) =~= before.push(e@));
        }
        i = i + 1;
    }
    assert(all.take(i as int) =~= all);
    assert(transactions@.take(i as int) =~= transactions@);
    out
}

/// How many transactions are selected.
pub open spec fn selected_count(transactions: Seq<bank_import::TransactionData>) -> nat {
    transactions.filter(|t: bank_import::TransactionData| t.selected).len()
}

/// Counts the selected transactions.
pub fn count_selected(transactions: &Vec<ParsedTransaction>) -> (r: usize)
    ensures
        r == selected_count(bank_import::transaction_views(transactions@)),
{
    let ghost all = bank_import::transaction_views(transactions@);
    let ghost keep = |t: bank_import::TransactionData| t.selected;
    let mut n: usize = 0;
    let mut i: usize = 0;
    proof {
        reveal(Seq::filter);
        assert(all.take(0).filter(keep).len() == 0);
    }
    while i < transactions.len()
        invariant
            i <= transactions@.len(),
            n <= i,
            all == bank_import::transaction_views(transactions@),
            keep == (|t: bank_import::TransactionData| t.selected),
            n == all.take(i as int).filter(keep).len(),
        decreases transactions@.len() - i,
    {
        proof {
            reveal(Seq::filter);
            let next = all.take(i + 1);
            assert(next.drop_last() =~= all.take(i as int));
            assert(next.last() == transactions@[i as int]@);
            assert(keep(next.last()) == transactions@[i as int].selected);
        }
        if transactions[i].selected {
            n = n + 1;
        }
        i = i + 1;
    }
    assert(all.take(i as int) =~= all);
    n
}

/// The bank whose account is to be remembered after an import, if that was
/// asked for and the bank is known.
pub fn bank_to_remember(save_mapping: bool, bank_id: &Option<String>) -> (r: Option<String>)
    ensures
        text::opt_text(r) == (if save_mapping {
            text::opt_text(*bank_id)
        } else {
            None
        }),
{
    if save_mapping {
        text::clone_opt(bank_id)
    } else {
        None
    }
}

// ---- the company of the books ----

/// The name of the company of new books: that of their file.
pub fn company_name(file_stem: &Option<String>) -> (r: String)
    ensures
        r@ == text::text_or(*file_stem, "My Company"@),
{
    text::or_text(file_stem, "My Company")
}

/// What came of making the company.
pub enum CompanyOutcome {
    Existing,
    Created,
    /// It was recorded, but the books could not be brought up to date.
    NotProjected(String),
    NotRecorded(String),
}

/// What is said about the company, if anything.
pub open spec fn company_message(outcome: CompanyOutcome, name: Seq<char>) -> Option<Seq<char>> {
    match outcome {
        CompanyOutcome::Existing => None,
        CompanyOutcome::Created => Some("Company '"@ + name + "' created for sync"@),
        CompanyOutcome::NotProjected(e) => Some("Failed to project company: "@ + e@),
        CompanyOutcome::NotRecorded(e) => Some("Failed to create company: "@ + e@),
    }
}

/// Says what came of making the company, if it was not there.
pub fn ensure_company(outcome: &CompanyOutcome, name: &str) -> (r: Option<String>)
    ensures
        text::opt_text(r) == company_message(*outcome, name@),
{
    match outcome {
        CompanyOutcome::Existing => None,
        CompanyOutcome::Created => Some(text::cat3("Company '", name, "' created for sync")),
        CompanyOutcome::NotProjected(e) => Some(
            text::cat2("Failed to project company: ", e.as_str()),
        ),
        CompanyOutcome::NotRecorded(e) => Some(
            text::cat2("Failed to create company: ", e.as_str()),
        ),
    }
}

} // verus!
