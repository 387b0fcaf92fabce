//! Loading and saving the keyring metadata.
use vstd::prelude::*;

verus! {

/// Loads and saves `metadata.json`.  Reading and writing files is done where
/// the file system is available; this type names the operation.
pub struct ConfigLoader;

} // verus!
