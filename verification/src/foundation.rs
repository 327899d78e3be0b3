//! Foundation layer of the bridge: the string bridge, typed collection
//! wrappers, numbers, and the scoped release pool.

pub mod convert;
pub mod ns_array;
pub mod ns_autoreleasepool;
pub mod ns_bundle;
pub mod ns_dictionary;
pub mod ns_mutable_dictionary;
pub mod ns_number;
pub mod ns_string;
pub mod utf16;

pub use ns_bundle::MachOArchitecture;

pub use ns_array::Array;
pub use ns_array::MutableArray;
pub use ns_dictionary::NSDictionary;
pub use ns_mutable_dictionary::NSMutableDictionary;
pub use ns_number::NSNumber;
pub use ns_string::ComparisonResult;
pub use ns_string::Encoding;
pub use ns_string::EncodingError;
pub use ns_string::NSString;
