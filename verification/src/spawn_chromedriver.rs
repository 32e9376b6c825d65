//! The spawn plan for the driver process: the randomized local port and
//! the exact launch arguments. Setting the executable bit, spawning, and
//! draining the child's output are performed outside this crate.
use vstd::prelude::*;
use vstd::string::StringExecFns;
use crate::rng::random_in_range;
use crate::text::dec_chars;
use crate::text::u32_string;

verus! {

/// The inclusive lower bound of the randomized port range.
pub const PORT_RANGE_LOW: u16 = 2000;

/// The exclusive upper bound of the randomized port range.
pub const PORT_RANGE_HIGH: u16 = 5000;

/// Picks the driver's local port at random from the fixed range, a
/// best-effort mitigation against collisions between concurrent
/// invocations in the same environment.
pub fn pick_port() -> (r: u16)
    ensures
        PORT_RANGE_LOW <= r < PORT_RANGE_HIGH,
{
    random_in_range(PORT_RANGE_LOW, PORT_RANGE_HIGH)
}

/// The single argument the driver process is launched with.
pub open spec fn port_arg_spec(port: u16) -> Seq<char> {
    "--port="@ + dec_chars(port as nat)
}

/// Builds the `--port=<port>` launch argument.
pub fn port_arg(port: u16) -> (r: String)
    ensures
        r@ == port_arg_spec(port),
{
    let mut s = String::from_str("--port=");
    let digits = u32_string(port as u32);
    s.append(digits.as_str());
    s
}

/// The path the executable is invoked by, relative to the install
/// directory.
pub open spec fn invocation_path_spec(name: Seq<char>) -> Seq<char> {
    "./"@ + name
}

/// Builds the `./<name>` invocation path.
pub fn invocation_path(name: &str) -> (r: String)
    ensures
        r@ == invocation_path_spec(name@),
{
    let mut s = String::from_str("./");
    s.append(name);
    s
}

} // verus!
