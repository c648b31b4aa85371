//! Safe, verified core of an AppKit/WebKit bridging layer: a class cache that
//! maps (subclass, superclass) name pairs to runtime class handles, a dynamic
//! subclass registrar that synthesizes process-unique runtime names, and a
//! controller bridge that balances reference-count transfers across the
//! native boundary. The native Objective-C runtime itself is an external
//! collaborator: callers perform the runtime queries and feed the replies to
//! the step functions defined here.

pub mod bridge;
pub mod cache;
pub mod pasteboard;
pub mod registrar;
pub mod shared;
pub mod view;
pub mod webview;
