//! Launch parameters: what the client process is started with.

use crate::account::{kind_label, ResolvedAccount, ResolvedAccountView};
use vstd::prelude::*;
use vstd::string::*;

verus! {

/// Host memory is counted in decimal megabytes.
pub const BYTES_PER_MEGABYTE: u64 = 1_000_000;

/// What a user chose for a launch.
#[derive(Debug, PartialEq, Eq)]
pub struct LaunchOptions {
    /// Share of the host memory to give the client, in percent. Not checked
    /// to lie between 0 and 100.
    pub memory_percentage: i32,
    /// Path of the runtime executable; empty for the bundled runtime.
    pub custom_runtime_path: String,
    /// Whether the launcher window stays open once the client runs.
    pub keep_window_open: bool,
}

/// The record a launch is started with.
#[derive(Debug, PartialEq, Eq)]
pub struct LaunchingParameter {
    pub allocated_memory_mb: i64,
    pub runtime_path: Option<String>,
    pub display_name: String,
    pub subject_id: String,
    pub access_token: String,
    pub auxiliary_id: String,
    pub account_kind: String,
    pub keep_window_open: bool,
}

/// The mathematical content of a [`LaunchingParameter`].
pub struct LaunchingParameterView {
    pub allocated_memory_mb: int,
    pub runtime_path: Option<Seq<char>>,
    pub display_name: Seq<char>,
    pub subject_id: Seq<char>,
    pub access_token: Seq<char>,
    pub auxiliary_id: Seq<char>,
    pub account_kind: Seq<char>,
    pub keep_window_open: bool,
}

impl View for LaunchingParameter {
    type V = LaunchingParameterView;

    open spec fn view(&self) -> LaunchingParameterView {
        LaunchingParameterView {
            allocated_memory_mb: self.allocated_memory_mb as int,
            runtime_path: match self.runtime_path {
                Some(path) => Some(path@),
                None => None,
            },
            display_name: self.display_name@,
            subject_id: self.subject_id@,
            access_token: self.access_token@,
            auxiliary_id: self.auxiliary_id@,
            account_kind: self.account_kind@,
            keep_window_open: self.keep_window_open,
        }
    }
}

/// The quotient of `n` by a positive `d`, rounded towards zero.
pub open spec fn quotient_towards_zero(n: int, d: int) -> int
    recommends
        d > 0,
{
    if n >= 0 {
        n / d
    } else {
        -((-n) / d)
    }
}

/// The nearest value that an `i64` holds.
pub open spec fn nearest_i64(value: int) -> int {
    if value < i64::MIN {
        i64::MIN as int
    } else if value > i64::MAX {
        i64::MAX as int
    } else {
        value
    }
}

/// Megabytes given to the client: the host's whole decimal megabytes, times
/// the percentage, over one hundred, rounded towards zero. A percentage
/// outside 0..=100 is taken as it is; a share that no `i64` holds becomes the
/// nearest one.
pub open spec fn allocated_memory_mb(total_memory: int, percentage: int) -> int {
    nearest_i64(quotient_towards_zero((total_memory / 1_000_000) * percentage, 100))
}

/// The identifier every launch carries beside its credentials.
pub open spec fn auxiliary_id() -> Seq<char> {
    "x"@
}

/// The runtime a path names: none for the empty path, else that path.
pub open spec fn chosen_runtime(path: Seq<char>) -> Option<Seq<char>> {
    if path.len() == 0 {
        None
    } else {
        Some(path)
    }
}

/// The parameters that credentials, options and host memory determine.
pub open spec fn launch_parameters(
    credentials: ResolvedAccountView,
    memory_percentage: int,
    custom_runtime_path: Seq<char>,
    keep_window_open: bool,
    total_memory: int,
) -> LaunchingParameterView {
    LaunchingParameterView {
        allocated_memory_mb: allocated_memory_mb(total_memory, memory_percentage),
        runtime_path: chosen_runtime(custom_runtime_path),
        display_name: credentials.display_name,
        subject_id: credentials.subject_id,
        access_token: credentials.access_token,
        auxiliary_id: auxiliary_id(),
        account_kind: kind_label(credentials.account_kind),
        keep_window_open,
    }
}

/// Computes [`allocated_memory_mb`] for a host with `total_memory` bytes.
pub fn allocate_memory(total_memory: u64, percentage: i32) -> (megabytes: i64)
    ensures
        megabytes == allocated_memory_mb(total_memory as int, percentage as int),
{
    let whole: u64 = total_memory / BYTES_PER_MEGABYTE;
    if percentage >= 0 {
        let factor: u64 = percentage as u64;
        assert(whole * factor <= 0xffff_ffff_ffff_ffff * 0x8000_0000) by (nonlinear_arith)
            requires
                0 <= whole <= 0xffff_ffff_ffff_ffff,
                0 <= factor <= 0x8000_0000,
        ;
        let share: u128 = (whole as u128 * factor as u128) / 100;
        if share > i64::MAX as u128 {
            i64::MAX
        } else {
            share as i64
        }
    } else {
        let factor: u64 = (-(percentage as i64)) as u64;
        assert(whole * factor <= 0xffff_ffff_ffff_ffff * 0x8000_0000) by (nonlinear_arith)
            requires
                0 <= whole <= 0xffff_ffff_ffff_ffff,
                0 <= factor <= 0x8000_0000,
        ;
        assert(whole * percentage == -(whole * factor)) by (nonlinear_arith)
            requires
                factor == -percentage,
        ;
        let share: u128 = (whole as u128 * factor as u128) / 100;
        if share > i64::MAX as u128 {
            i64::MIN
        } else {
            -(share as i64)
        }
    }
}

/// Chooses the runtime: the bundled one for an empty path, else the path.
pub fn runtime_path(custom_runtime_path: String) -> (runtime: Option<String>)
    ensures
        custom_runtime_path@.len() == 0 ==> runtime is None,
        custom_runtime_path@.len() > 0 ==> runtime == Some(custom_runtime_path),
{
    if custom_runtime_path.as_str().is_empty() {
        None
    } else {
        Some(custom_runtime_path)
    }
}

/// Builds the parameters of one launch from resolved credentials, the user's
/// options and the host's memory in bytes.
pub fn build_launch_parameters(
    credentials: ResolvedAccount,
    options: LaunchOptions,
    total_memory: u64,
) -> (parameters: LaunchingParameter)
    ensures
        parameters@ == launch_parameters(
            credentials@,
            options.memory_percentage as int,
            options.custom_runtime_path@,
            options.keep_window_open,
            total_memory as int,
        ),
{
    let LaunchOptions { memory_percentage, custom_runtime_path, keep_window_open } = options;
    LaunchingParameter {
        allocated_memory_mb: allocate_memory(total_memory, memory_percentage),
        runtime_path: runtime_path(custom_runtime_path),
        display_name: credentials.display_name,
        subject_id: credentials.subject_id,
        access_token: credentials.access_token,
        auxiliary_id: "x".to_owned(),
        account_kind: credentials.account_kind.label(),
        keep_window_open,
    }
}

} // verus!
