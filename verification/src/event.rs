use vstd::prelude::*;
use crate::identity::Identity;

verus! {

pub const EVENT_PACKAGE_CREATED: &'static str = "package_created";

pub const EVENT_PACKAGE_CLAIMED: &'static str = "package_claimed";

pub const EVENT_PACKAGE_EXPIRED: &'static str = "package_expired";

pub const EVENT_PACKAGE_CANCELLED: &'static str = "package_cancelled";

pub const EVENT_CONTRACT_INITIALIZED: &'static str = "contract_initialized";

/// A notification, as plain mathematical values.
pub enum EventView {
    ContractInitialized { admin: Seq<char>, timestamp: nat },
    PackageCreated {
        package_id: nat,
        recipient: Seq<char>,
        amount: int,
        token: Seq<char>,
        creator: Seq<char>,
        created_at: nat,
        expires_at: nat,
    },
    PackageClaimed { package_id: nat, recipient: Seq<char>, amount: int, token: Seq<char>, timestamp: nat },
    PackageExpired { package_id: nat, recipient: Seq<char>, amount: int, token: Seq<char>, timestamp: nat },
    PackageCancelled {
        package_id: nat,
        recipient: Seq<char>,
        amount: int,
        token: Seq<char>,
        actor: Seq<char>,
        timestamp: nat,
    },
}

/// One value of a published notification, as a plain mathematical value.
pub enum FieldView {
    Name(Seq<char>),
    Number(nat),
    Party(Seq<char>),
    Amount(int),
}

impl EventView {
    /// The package that the notification is about, if it is about one.
    pub open spec fn package_id(self) -> Option<nat> {
        match self {
            EventView::ContractInitialized { .. } => None,
            EventView::PackageCreated { package_id, .. } => Some(package_id),
            EventView::PackageClaimed { package_id, .. } => Some(package_id),
            EventView::PackageExpired { package_id, .. } => Some(package_id),
            EventView::PackageCancelled { package_id, .. } => Some(package_id),
        }
    }

    /// The topics under which the notification is published: its name,
    /// followed by the package's identifier where it is about a package.
    pub open spec fn topics(self) -> Seq<FieldView> {
        match self.package_id() {
            Some(id) => seq![FieldView::Name(self.topic()), FieldView::Number(id)],
            None => seq![FieldView::Name(self.topic())],
        }
    }

    /// The values that the notification carries, in the order in which they
    /// are published.
    pub open spec fn payload(self) -> Seq<FieldView> {
        match self {
            EventView::ContractInitialized { admin, timestamp } => seq![
                FieldView::Party(admin),
                FieldView::Number(timestamp),
            ],
            EventView::PackageCreated {
                package_id,
                recipient,
                amount,
                token,
                creator,
                created_at,
                expires_at,
            } => seq![
                FieldView::Number(package_id),
                FieldView::Party(recipient),
                FieldView::Amount(amount),
                FieldView::Party(token),
                FieldView::Party(creator),
                FieldView::Number(created_at),
                FieldView::Number(expires_at),
            ],
            EventView::PackageClaimed { package_id, recipient, amount, token, timestamp } => seq![
                FieldView::Number(package_id),
                FieldView::Party(recipient),
                FieldView::Amount(amount),
                FieldView::Party(token),
                FieldView::Number(timestamp),
            ],
            EventView::PackageExpired { package_id, recipient, amount, token, timestamp } => seq![
                FieldView::Number(package_id),
                FieldView::Party(recipient),
                FieldView::Amount(amount),
                FieldView::Party(token),
                FieldView::Number(timestamp),
            ],
            EventView::PackageCancelled {
                package_id,
                recipient,
                amount,
                token,
                actor,
                timestamp,
            } => seq![
                FieldView::Number(package_id),
                FieldView::Party(recipient),
                FieldView::Amount(amount),
                FieldView::Party(token),
                FieldView::Party(actor),
                FieldView::Number(timestamp),
            ],
        }
    }

    /// The name under which the notification is published.
    pub open spec fn topic(self) -> Seq<char> {
        match self {
            EventView::ContractInitialized { .. } => EVENT_CONTRACT_INITIALIZED@,
            EventView::PackageCreated { .. } => EVENT_PACKAGE_CREATED@,
            EventView::PackageClaimed { .. } => EVENT_PACKAGE_CLAIMED@,
            EventView::PackageExpired { .. } => EVENT_PACKAGE_EXPIRED@,
            EventView::PackageCancelled { .. } => EVENT_PACKAGE_CANCELLED@,
        }
    }
}

/// One value of a published notification.
#[derive(Debug, PartialEq, Eq)]
pub enum Field {
    /// The name of a notification.
    Name(String),
    /// A package identifier or a time.
    Number(u64),
    /// The administrator, a recipient or an asset.
    Party(Identity),
    /// A quantity of value.
    Amount(i128),
}

impl View for Field {
    type V = FieldView;

    open spec fn view(&self) -> FieldView {
        match self {
            Field::Name(name) => FieldView::Name(name@),
            Field::Number(n) => FieldView::Number(*n as nat),
            Field::Party(party) => FieldView::Party(party@),
            Field::Amount(amount) => FieldView::Amount(*amount as int),
        }
    }
}

/// The values of `fields`, each by its view, in order.
pub open spec fn fields_view(fields: Seq<Field>) -> Seq<FieldView> {
    Seq::new(fields.len(), |i: int| fields[i]@)
}

/// A notification of one state transition.
#[derive(Debug, PartialEq, Eq)]
pub enum Event {
    ContractInitialized { admin: Identity, timestamp: u64 },
    PackageCreated {
        package_id: u64,
        recipient: Identity,
        amount: i128,
        token: Identity,
        creator: Identity,
        created_at: u64,
        expires_at: u64,
    },
    PackageClaimed { package_id: u64, recipient: Identity, amount: i128, token: Identity, timestamp: u64 },
    PackageExpired { package_id: u64, recipient: Identity, amount: i128, token: Identity, timestamp: u64 },
    PackageCancelled {
        package_id: u64,
        recipient: Identity,
        amount: i128,
        token: Identity,
        actor: Identity,
        timestamp: u64,
    },
}

impl View for Event {
    type V = EventView;

    open spec fn view(&self) -> EventView {
        match self {
            Event::ContractInitialized { admin, timestamp } => EventView::ContractInitialized {
                admin: admin@,
                timestamp: *timestamp as nat,
            },
            Event::PackageCreated {
                package_id,
                recipient,
                amount,
                token,
                creator,
                created_at,
                expires_at,
            } => EventView::PackageCreated {
                package_id: *package_id as nat,
                recipient: recipient@,
                amount: *amount as int,
                token: token@,
                creator: creator@,
                created_at: *created_at as nat,
                expires_at: *expires_at as nat,
            },
            Event::PackageClaimed { package_id, recipient, amount, token, timestamp } => EventView::PackageClaimed {
                package_id: *package_id as nat,
                recipient: recipient@,
                amount: *amount as int,
                token: token@,
                timestamp: *timestamp as nat,
            },
            Event::PackageExpired { package_id, recipient, amount, token, timestamp } => EventView::PackageExpired {
                package_id: *package_id as nat,
                recipient: recipient@,
                amount: *amount as int,
                token: token@,
                timestamp: *timestamp as nat,
            },
            Event::PackageCancelled {
                package_id,
                recipient,
                amount,
                token,
                actor,
                timestamp,
            } => EventView::PackageCancelled {
                package_id: *package_id as nat,
                recipient: recipient@,
                amount: *amount as int,
                token: token@,
                actor: actor@,
                timestamp: *timestamp as nat,
            },
        }
    }
}

impl Event {
    /// The name under which the notification is published.
    pub fn topic(&self) -> (r: &'static str)
        ensures
            r@ == self@.topic(),
    {
        match self {
            Event::ContractInitialized { .. } => EVENT_CONTRACT_INITIALIZED,
            Event::PackageCreated { .. } => EVENT_PACKAGE_CREATED,
            Event::PackageClaimed { .. } => EVENT_PACKAGE_CLAIMED,
            Event::PackageExpired { .. } => EVENT_PACKAGE_EXPIRED,
            Event::PackageCancelled { .. } => EVENT_PACKAGE_CANCELLED,
        }
    }

    /// The package that the notification is about, if it is about one.
    pub fn package_id(&self) -> (r: Option<u64>)
        ensures
            r.is_some() == self@.package_id().is_some(),
            r matches Some(id) ==> self@.package_id() == Some(id as nat),
    {
        match self {
            Event::ContractInitialized { .. } => None,
            Event::PackageCreated { package_id, .. } => Some(*package_id),
            Event::PackageClaimed { package_id, .. } => Some(*package_id),
            Event::PackageExpired { package_id, .. } => Some(*package_id),
            Event::PackageCancelled { package_id, .. } => Some(*package_id),
        }
    }

    /// The topics under which the notification is published: its name,
    /// followed by the package's identifier where it is about a package.
    pub fn topics(&self) -> (r: Vec<Field>)
        ensures
            fields_view(r@) == self@.topics(),
    {
        let mut out: Vec<Field> = Vec::new();
        out.push(Field::Name(self.topic().to_owned()));
        match self.package_id() {
            Some(id) => {
                out.push(Field::Number(id));
            },
            None => {},
        }
        assert(fields_view(out@) =~= self@.topics());
        out
    }

    /// The values that the notification carries, in the order in which they
    /// are published.
    pub fn payload(&self) -> (r: Vec<Field>)
        ensures
            fields_view(r@) == self@.payload(),
    {
        let mut out: Vec<Field> = Vec::new();
        match self {
            Event::ContractInitialized { admin, timestamp } => {
                out.push(Field::Party(admin.clone()));
                out.push(Field::Number(*timestamp));
            },
            Event::PackageCreated {
                package_id,
                recipient,
                amount,
                token,
                creator,
                created_at,
                expires_at,
            } => {
                out.push(Field::Number(*package_id));
                out.push(Field::Party(recipient.clone()));
                out.push(Field::Amount(*amount));
                out.push(Field::Party(token.clone()));
                out.push(Field::Party(creator.clone()));
                out.push(Field::Number(*created_at));
                out.push(Field::Number(*expires_at));
            },
            Event::PackageClaimed { package_id, recipient, amount, token, timestamp } => {
                out.push(Field::Number(*package_id));
                out.push(Field::Party(recipient.clone()));
                out.push(Field::Amount(*amount));
                out.push(Field::Party(token.clone()));
                out.push(Field::Number(*timestamp));
            },
            Event::PackageExpired { package_id, recipient, amount, token, timestamp } => {
                out.push(Field::Number(*package_id));
                out.push(Field::Party(recipient.clone()));
                out.push(Field::Amount(*amount));
                out.push(Field::Party(token.clone()));
                out.push(Field::Number(*timestamp));
            },
            Event::PackageCancelled { package_id, recipient, amount, token, actor, timestamp } => {
                out.push(Field::Number(*package_id));
                out.push(Field::Party(recipient.clone()));
                out.push(Field::Amount(*amount));
                out.push(Field::Party(token.clone()));
                out.push(Field::Party(actor.clone()));
                out.push(Field::Number(*timestamp));
            },
        }
        assert(fields_view(out@) =~= self@.payload());
        out
    }
}

} // verus!
