use vstd::prelude::*;
use vstd::string::StringExecFns;

verus! {

/// The type of item a ring carries.
#[derive(Clone, Copy, Debug, PartialEq, Eq, Structural)]
pub enum ElementKind {
    /// 64-bit floating-point numbers.
    Float,
    /// 64-bit signed integers.
    Integer,
    /// Bytes.
    Byte,
}

/// Which end of a ring an endpoint holds.
#[derive(Clone, Copy, Debug, PartialEq, Eq, Structural)]
pub enum Role {
    /// The end that writes items.
    Sender,
    /// The end that reads them.
    Receiver,
}

/// How an endpoint comes to its ring.
#[derive(Clone, Copy, Debug, PartialEq, Eq, Structural)]
pub enum Setup {
    /// It sets up a new ring.
    Create,
    /// It attaches to a ring that its peer set up.
    Open,
}

/// One of the six endpoint classes: a kind of item and a role.
#[derive(Clone, Copy, Debug, PartialEq, Eq, Structural)]
pub struct Endpoint {
    pub kind: ElementKind,
    pub role: Role,
}

/// The name of the class that stands for `e`.
pub open spec fn class_name_of(e: Endpoint) -> Seq<char> {
    match (e.kind, e.role) {
        (ElementKind::Float, Role::Sender) => "FloatSender"@,
        (ElementKind::Float, Role::Receiver) => "FloatReceiver"@,
        (ElementKind::Integer, Role::Sender) => "IntegerSender"@,
        (ElementKind::Integer, Role::Receiver) => "IntegerReceiver"@,
        (ElementKind::Byte, Role::Sender) => "ByteSender"@,
        (ElementKind::Byte, Role::Receiver) => "ByteReceiver"@,
    }
}

/// How messages name `e`.
pub open spec fn label_of(e: Endpoint) -> Seq<char> {
    match (e.kind, e.role) {
        (ElementKind::Float, Role::Sender) => "float sender"@,
        (ElementKind::Float, Role::Receiver) => "float receiver"@,
        (ElementKind::Integer, Role::Sender) => "integer sender"@,
        (ElementKind::Integer, Role::Receiver) => "integer receiver"@,
        (ElementKind::Byte, Role::Sender) => "byte sender"@,
        (ElementKind::Byte, Role::Receiver) => "byte receiver"@,
    }
}

/// The verb that messages use for `setup`.
pub open spec fn verb_of(setup: Setup) -> Seq<char> {
    match setup {
        Setup::Create => "create"@,
        Setup::Open => "open"@,
    }
}

/// What a failed transfer on an endpoint of `role` is reported as.
pub open spec fn transfer_failure_of(role: Role) -> Seq<char> {
    match role {
        Role::Sender => "Send failed"@,
        Role::Receiver => "Receive failed"@,
    }
}

/// What a sender of `kind` says when it is handed something it cannot send.
pub open spec fn wrong_input_of(kind: ElementKind) -> Seq<char> {
    match kind {
        ElementKind::Byte => "Expected string or array of integers"@,
        _ => "Expected array"@,
    }
}

impl Setup {
    /// The verb that messages use for this setup: "create" or "open".
    pub fn verb(&self) -> (verb: &'static str)
        ensures
            verb@ == verb_of(*self),
    {
        match self {
            Setup::Create => "create",
            Setup::Open => "open",
        }
    }
}

impl Role {
    /// What a failed transfer is reported as, before the ring's own error.
    pub fn transfer_failure(&self) -> (text: &'static str)
        ensures
            text@ == transfer_failure_of(*self),
    {
        match self {
            Role::Sender => "Send failed",
            Role::Receiver => "Receive failed",
        }
    }
}

impl ElementKind {
    /// What a sender of this kind says when it is handed something it cannot send.
    pub fn wrong_input(&self) -> (text: &'static str)
        ensures
            text@ == wrong_input_of(*self),
    {
        match self {
            ElementKind::Byte => "Expected string or array of integers",
            _ => "Expected array",
        }
    }
}

impl Endpoint {
    /// What a failed setup of this endpoint is reported as, before the ring's
    /// own error, such as "Failed to create float sender".
    pub fn setup_failure(&self, setup: Setup) -> (text: String)
        ensures
            text@ == "Failed to "@ + verb_of(setup) + " "@ + label_of(*self),
    {
        let mut text = String::from_str("Failed to ");
        text.append(setup.verb());
        text.append(" ");
        text.append(self.label());
        text
    }

    /// What a call on an endpoint object that holds no endpoint is refused
    /// with, such as "Invalid float sender object".
    pub fn invalid_object(&self) -> (text: String)
        ensures
            text@ == "Invalid "@ + label_of(*self) + " object"@,
    {
        let mut text = String::from_str("Invalid ");
        text.append(self.label());
        text.append(" object");
        text
    }

    /// The name of the class that stands for this endpoint.
    pub fn class_name(&self) -> (name: &'static str)
        ensures
            name@ == class_name_of(*self),
    {
        match (self.kind, self.role) {
            (ElementKind::Float, Role::Sender) => "FloatSender",
            (ElementKind::Float, Role::Receiver) => "FloatReceiver",
            (ElementKind::Integer, Role::Sender) => "IntegerSender",
            (ElementKind::Integer, Role::Receiver) => "IntegerReceiver",
            (ElementKind::Byte, Role::Sender) => "ByteSender",
            (ElementKind::Byte, Role::Receiver) => "ByteReceiver",
        }
    }

    /// How messages name this endpoint, such as "float sender".
    pub fn label(&self) -> (label: &'static str)
        ensures
            label@ == label_of(*self),
    {
        match (self.kind, self.role) {
            (ElementKind::Float, Role::Sender) => "float sender",
            (ElementKind::Float, Role::Receiver) => "float receiver",
            (ElementKind::Integer, Role::Sender) => "integer sender",
            (ElementKind::Integer, Role::Receiver) => "integer receiver",
            (ElementKind::Byte, Role::Sender) => "byte sender",
            (ElementKind::Byte, Role::Receiver) => "byte receiver",
        }
    }
}

} // verus!
