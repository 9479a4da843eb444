//! Fulfillments: what kind of stock movement they are and how far along.

use vstd::prelude::*;
use vstd::std_specs::convert::FromSpecImpl;

use super::{Record, ToRecord};

verus! {

/// What a fulfillment moves: stock that is collected, or stock that is
/// brought to the customer. Set when the fulfillment is created.
#[derive(Clone, Copy, Debug, PartialEq, Eq, Structural)]
pub enum FulfillmentType {
    StockPickUp,
    StockDelivery,
}

impl FulfillmentType {
    /// The name under which the type is stored.
    pub open spec fn name(self) -> Seq<char> {
        match self {
            FulfillmentType::StockPickUp => "StockPickUp"@,
            FulfillmentType::StockDelivery => "StockDelivery"@,
        }
    }
}

impl From<FulfillmentType> for String {
    /// The name under which the type is stored.
    fn from(value: FulfillmentType) -> (name: String)
        ensures
            name@ == value.name(),
    {
        match value {
            FulfillmentType::StockPickUp => "StockPickUp".to_string(),
            FulfillmentType::StockDelivery => "StockDelivery".to_string(),
        }
    }
}

/// The conversion is stated on `from` itself: a `String` is known by its
/// characters only.
impl FromSpecImpl<FulfillmentType> for String {
    open spec fn obeys_from_spec() -> bool {
        false
    }

    open spec fn from_spec(value: FulfillmentType) -> String {
        arbitrary()
    }
}

/// How far a fulfillment has come. A fulfillment starts as `New` and only
/// ever moves one step forward along
/// `New`, `Initialized`, `InProgress`, `Fulfilled`.
#[derive(Clone, Copy, Debug, PartialEq, Eq, Structural)]
pub enum FulfillmentStatus {
    New,
    Initialized,
    InProgress,
    Fulfilled,
}

impl From<FulfillmentStatus> for String {
    /// The name under which the status is stored.
    fn from(value: FulfillmentStatus) -> (name: String)
        ensures
            name@ == value.name(),
    {
        match value {
            FulfillmentStatus::New => "New".to_string(),
            FulfillmentStatus::Initialized => "Initialized".to_string(),
            FulfillmentStatus::InProgress => "InProgress".to_string(),
            FulfillmentStatus::Fulfilled => "Fulfilled".to_string(),
        }
    }
}

/// The conversion is stated on `from` itself: a `String` is known by its
/// characters only.
impl FromSpecImpl<FulfillmentStatus> for String {
    open spec fn obeys_from_spec() -> bool {
        false
    }

    open spec fn from_spec(value: FulfillmentStatus) -> String {
        arbitrary()
    }
}

impl FulfillmentStatus {
    /// The name under which the status is stored.
    pub open spec fn name(self) -> Seq<char> {
        match self {
            FulfillmentStatus::New => "New"@,
            FulfillmentStatus::Initialized => "Initialized"@,
            FulfillmentStatus::InProgress => "InProgress"@,
            FulfillmentStatus::Fulfilled => "Fulfilled"@,
        }
    }

    /// The statuses from which a fulfillment may move directly into `self`.
    pub open spec fn spec_allowed_priors(self) -> Seq<FulfillmentStatus> {
        match self {
            FulfillmentStatus::New => Seq::empty(),
            FulfillmentStatus::Initialized => seq![FulfillmentStatus::New],
            FulfillmentStatus::InProgress => seq![FulfillmentStatus::Initialized],
            FulfillmentStatus::Fulfilled => seq![FulfillmentStatus::InProgress],
        }
    }

    /// Whether a fulfillment that stands at `prior` may move directly into
    /// `self`.
    pub open spec fn spec_follows(self, prior: FulfillmentStatus) -> bool {
        self.spec_allowed_priors().contains(prior)
    }

    /// How many steps the status is from the first.
    pub open spec fn rank(self) -> nat {
        match self {
            FulfillmentStatus::New => 0,
            FulfillmentStatus::Initialized => 1,
            FulfillmentStatus::InProgress => 2,
            FulfillmentStatus::Fulfilled => 3,
        }
    }

    /// The statuses from which a fulfillment may move directly into `self`:
    /// none for `New`, and the one status before it for each of the others.
    pub fn allowed_priors(&self) -> (priors: Vec<FulfillmentStatus>)
        ensures
            priors@ == self.spec_allowed_priors(),
    {
        match self {
            FulfillmentStatus::Initialized => vec![FulfillmentStatus::New],
            FulfillmentStatus::InProgress => vec![FulfillmentStatus::Initialized],
            FulfillmentStatus::Fulfilled => vec![FulfillmentStatus::InProgress],
            _ => vec![],
        }
    }

    /// Whether a fulfillment that stands at `prior` may move directly into
    /// `self`: whether `prior` is among the allowed priors of `self`.
    pub fn follows(&self, prior: FulfillmentStatus) -> (legal: bool)
        ensures
            legal == self.spec_follows(prior),
    {
        let priors = self.allowed_priors();
        let mut i: usize = 0;
        while i < priors.len()
            invariant
                i <= priors.len(),
                priors@ == self.spec_allowed_priors(),
                forall|j: int| 0 <= j < i ==> priors@[j] != prior,
            decreases priors.len() - i,
        {
            if priors[i] == prior {
                return true;
            }
            i += 1;
        }
        false
    }
}

/// Each status but the first has exactly one status from which it can be
/// reached, the one a single step before it: `target` follows `prior` if and
/// only if `target` is one step further along than `prior`. `New` follows
/// nothing.
pub proof fn lemma_follows_is_one_step(target: FulfillmentStatus, prior: FulfillmentStatus)
    ensures
        target.spec_follows(prior) <==> target.rank() == prior.rank() + 1,
        !FulfillmentStatus::New.spec_follows(prior),
{
    let priors = target.spec_allowed_priors();
    if target.rank() == prior.rank() + 1 {
        assert(priors[0] == prior);
    }
}

/// A fulfillment: the kind of stock movement and how far it has come.
#[derive(Clone, Copy, Debug, PartialEq, Eq, Structural)]
pub struct FulfillmentDetails {
    pub fulfillment_type: FulfillmentType,
    pub status: FulfillmentStatus,
}

impl ToRecord for FulfillmentDetails {
    fn to_record(&self, id: i64) -> (record: Record<Self>) {
        Record { id, data: *self }
    }
}

} // verus!
