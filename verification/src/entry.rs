//! The native entry-point adapter.
//!
//! The platform loader hands the process an argument count and an
//! argument vector; the adapter forwards both verbatim to the one
//! externally supplied application entry function and returns its result
//! unchanged as the exit status. It validates nothing, transforms
//! nothing, and keeps no state: the contract below says the result is
//! exactly an outcome of calling the application function on the very
//! same count and vector.

use vstd::prelude::*;

verus! {

/// Forwards `argc` and `argv` verbatim to the application entry function
/// and returns its result as the process exit status. The adapter is the
/// sole bridge between the loader's calling convention and the
/// application: whatever obligations the application function places on
/// its arguments fall on the loader side, and whatever it promises of
/// its result is all the adapter promises of the exit status.
pub fn crust_entry_point<Argv, F: Fn(i32, Argv) -> i32>(
    app_main: F,
    argc: i32,
    argv: Argv,
) -> (status: i32)
    requires
        call_requires(app_main, (argc, argv)),
    ensures
        call_ensures(app_main, (argc, argv), status),
{
    app_main(argc, argv)
}

} // verus!
