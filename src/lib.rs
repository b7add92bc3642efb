//! Orchestration logic of an HTTP timing tool that drives an external
//! command-line HTTP client and renders a breakdown of request phases.
//!
//! Everything here works on plain values: the process invocation, the
//! reading of temporary files and the terminal output are done by the
//! program around this library.
pub mod args;
pub mod config;
pub mod errors;
pub mod present;
pub mod text;
pub mod timing;

pub use args::{
    arg_conflicts, client_args, is_disallowed_arg, parse_command_line, validate_extra_args,
    Invocation, USAGE, WRITE_OUT_FORMAT,
};
pub use config::{env_bool, env_u64, parse_falsy, parse_truthy, Config};
pub use errors::{check_client_exit, RunError, GENERIC_FAILURE};
pub use present::{
    body_plan, body_preview, connection_info, render_plan, split_header_line, text_lines,
    BodyAction, BodyPlan, BodyPreview, HeaderLine, RenderPlan, BODY_PREVIEW_LIMIT,
};
pub use text::{decimal_string, parse_decimal_u64, starts_with_str, str_equals};
pub use timing::{
    chart_layout, lemma_phases_sum_to_total, ms_label, phase_durations, phase_labels,
    url_is_https, ChartLayout, CumulativeMs, PhaseDurations, HTTPS_PREFIX,
};
