//! The failures that the storage engine reports.

use vstd::prelude::*;
use vstd::string::StringExecFns;

verus! {

/// Why an operation of the engine did not succeed.
#[derive(Debug, Clone, Copy, PartialEq, Eq, Structural)]
pub enum CoreError {
    /// The storage root of a repository could not be created.
    StorageInitError,
    /// No object is stored under the given id.
    ObjectNotFound,
    /// No ref of the given name exists.
    RefNotFound,
    /// The registry knows no node of the given id.
    NodeNotFound,
    /// Every active node already holds a replica of the repository.
    NoEligibleNode,
    /// The persistent catalog failed.
    CatalogError,
    /// Stored bytes could not be read back as an object.
    StorageIoError,
}

impl CoreError {
    /// The text that a log line or a response carries for this failure.
    pub open spec fn message_spec(self) -> Seq<char> {
        match self {
            CoreError::StorageInitError => "Failed to initialize repository storage"@,
            CoreError::ObjectNotFound => "Object not found"@,
            CoreError::RefNotFound => "Ref not found"@,
            CoreError::NodeNotFound => "Node not found"@,
            CoreError::NoEligibleNode => "No available nodes for replication"@,
            CoreError::CatalogError => "Catalog operation failed"@,
            CoreError::StorageIoError => "Stored object is unreadable"@,
        }
    }

    /// The text of the failure.
    pub fn message(&self) -> (text: String)
        ensures
            text@ == self.message_spec(),
    {
        match self {
            CoreError::StorageInitError => String::from_str(
                "Failed to initialize repository storage",
            ),
            CoreError::ObjectNotFound => String::from_str("Object not found"),
            CoreError::RefNotFound => String::from_str("Ref not found"),
            CoreError::NodeNotFound => String::from_str("Node not found"),
            CoreError::NoEligibleNode => String::from_str("No available nodes for replication"),
            CoreError::CatalogError => String::from_str("Catalog operation failed"),
            CoreError::StorageIoError => String::from_str("Stored object is unreadable"),
        }
    }
}

} // verus!
