//! The visitor counter: one atomic "add one and return the new value" on a
//! single record of the counter store, and the reply made from its outcome.

use vstd::prelude::*;

verus! {

/// Which values an update asks the store to return.
#[derive(Clone, Copy, Debug, PartialEq, Eq, Structural)]
pub enum ReturnValues {
    /// The attributes that the update changed, as they are after it.
    UpdatedNew,
}

/// The update that one visit asks of the store.
#[derive(Clone, Debug, PartialEq, Eq)]
pub struct CounterUpdate {
    pub table: String,
    /// Name of the key attribute of the record.
    pub key_name: String,
    /// The record's key, a text value.
    pub key_value: String,
    pub update_expression: String,
    /// The placeholder that the expression uses for the amount.
    pub amount_name: String,
    /// The amount to add, a number in decimal digits.
    pub amount: String,
    pub return_values: ReturnValues,
}

/// What a [`CounterUpdate`] holds.
pub struct CounterUpdateModel {
    pub table: Seq<char>,
    pub key_name: Seq<char>,
    pub key_value: Seq<char>,
    pub update_expression: Seq<char>,
    pub amount_name: Seq<char>,
    pub amount: Seq<char>,
    pub return_values: ReturnValues,
}

impl View for CounterUpdate {
    type V = CounterUpdateModel;

    open spec fn view(&self) -> CounterUpdateModel {
        CounterUpdateModel {
            table: self.table@,
            key_name: self.key_name@,
            key_value: self.key_value@,
            update_expression: self.update_expression@,
            amount_name: self.amount_name@,
            amount: self.amount@,
            return_values: self.return_values,
        }
    }
}

/// The one update that every visit issues: add 1 to `visits` of the record
/// `count` in table `VisitorCount`, and return the new value.
pub open spec fn visit_update() -> CounterUpdateModel {
    CounterUpdateModel {
        table: "VisitorCount"@,
        key_name: "id"@,
        key_value: "count"@,
        update_expression: "ADD visits :incr"@,
        amount_name: ":incr"@,
        amount: "1"@,
        return_values: ReturnValues::UpdatedNew,
    }
}

/// Name of the attribute of the record that holds the count.
pub fn visits_attribute() -> (name: &'static str)
    ensures
        name@ == "visits"@,
{
    "visits"
}

/// The update to issue for one visit. It is the same for every request:
/// a visit carries no input.
pub fn visitors_update() -> (update: CounterUpdate)
    ensures
        update@ == visit_update(),
{
    CounterUpdate {
        table: String::from_str("VisitorCount"),
        key_name: String::from_str("id"),
        key_value: String::from_str("count"),
        update_expression: String::from_str("ADD visits :incr"),
        amount_name: String::from_str(":incr"),
        amount: String::from_str("1"),
        return_values: ReturnValues::UpdatedNew,
    }
}

/// The `visits` attribute as the store returned it.
#[derive(Clone, Debug, PartialEq, Eq)]
pub enum StoredValue {
    /// A number, in the decimal digits in which the store holds it.
    Number(String),
    /// A value of any other type.
    Other,
}

/// How the update ended.
#[derive(Clone, Debug, PartialEq, Eq)]
pub enum UpdateOutcome {
    /// The store applied the update and returned the new `visits`.
    Applied(StoredValue),
    /// The store could not be reached or refused the update.
    Failed,
}

/// What an [`UpdateOutcome`] holds.
pub enum UpdateOutcomeModel {
    AppliedNumber(Seq<char>),
    AppliedOther,
    Failed,
}

impl View for UpdateOutcome {
    type V = UpdateOutcomeModel;

    open spec fn view(&self) -> UpdateOutcomeModel {
        match self {
            UpdateOutcome::Applied(StoredValue::Number(digits)) => UpdateOutcomeModel::AppliedNumber(
                digits@,
            ),
            UpdateOutcome::Applied(StoredValue::Other) => UpdateOutcomeModel::AppliedOther,
            UpdateOutcome::Failed => UpdateOutcomeModel::Failed,
        }
    }
}

/// The reply to a visit. A failure of the store is reported in the reply
/// itself, not by a status code.
#[derive(Clone, Debug, PartialEq, Eq)]
pub enum VisitorsReply {
    /// Served as an object with the one member `visitors`, a text.
    Counted { visitors: String },
    /// Served as an object with the members `error`, a text, and
    /// `visitors`, a number.
    Failed { error: String, visitors: u64 },
}

/// What a [`VisitorsReply`] holds.
pub enum VisitorsReplyModel {
    Counted { visitors: Seq<char> },
    Failed { error: Seq<char>, visitors: u64 },
}

impl View for VisitorsReply {
    type V = VisitorsReplyModel;

    open spec fn view(&self) -> VisitorsReplyModel {
        match self {
            VisitorsReply::Counted { visitors } => VisitorsReplyModel::Counted {
                visitors: visitors@,
            },
            VisitorsReply::Failed { error, visitors } => VisitorsReplyModel::Failed {
                error: error@,
                visitors: *visitors,
            },
        }
    }
}

/// The reply owed for an outcome: the new count as the store wrote it, `0`
/// where the store returned something that is no number, and the fixed
/// error reply where the update failed.
pub open spec fn visitors_reply_of(outcome: UpdateOutcomeModel) -> VisitorsReplyModel {
    match outcome {
        UpdateOutcomeModel::AppliedNumber(digits) => VisitorsReplyModel::Counted {
            visitors: digits,
        },
        UpdateOutcomeModel::AppliedOther => VisitorsReplyModel::Counted { visitors: "0"@ },
        UpdateOutcomeModel::Failed => VisitorsReplyModel::Failed {
            error: "DB Error"@,
            visitors: 0,
        },
    }
}

/// Makes the reply to a visit from the outcome of its update.
pub fn visitors_handler(outcome: &UpdateOutcome) -> (reply: VisitorsReply)
    ensures
        reply@ == visitors_reply_of(outcome@),
{
    match outcome {
        UpdateOutcome::Applied(StoredValue::Number(digits)) => VisitorsReply::Counted {
            visitors: digits.clone(),
        },
        UpdateOutcome::Applied(StoredValue::Other) => VisitorsReply::Counted {
            visitors: String::from_str("0"),
        },
        UpdateOutcome::Failed => VisitorsReply::Failed {
            error: String::from_str("DB Error"),
            visitors: 0,
        },
    }
}

} // verus!
