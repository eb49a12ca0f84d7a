//! The whole command line: which command it names, and that command's
//! arguments.

use vstd::prelude::*;
use crate::cli::{lits, pick_subcommand, subcommand_of, CliError};

verus! {

/// A command of `ddog` with its arguments.
pub enum Command {
    /// Search and analyze logs
    Logs(crate::commands::logs::LogsCmd),
    /// Query, search, and inspect metrics
    Metrics(crate::commands::metrics::MetricsCmd),
    /// Search events (monitor alerts, deploys, infrastructure changes)
    Events(crate::commands::events::EventsSearch),
    /// Search monitors by status, type, or tags
    Monitors(crate::commands::monitors::MonitorsSearch),
    /// Search monitored hosts
    Hosts(crate::commands::hosts::HostsSearch),
    /// Search dashboards
    Dashboards(crate::commands::dashboards::DashboardsSearch),
    /// Get a trace by trace ID
    Traces(crate::commands::traces::TracesGet),
    /// Search APM spans
    Spans(crate::commands::spans::SpansSearch),
    /// Search service catalog and dependencies
    Services(crate::commands::services::ServicesCmd),
    /// APM deep analysis — traces, metrics, watchdog, bottlenecks
    Apm(crate::commands::apm::ApmCmd),
    /// Manage SLOs (Service Level Objectives)
    Slos(crate::commands::slos::SlosCmd),
    /// List and inspect scheduled downtimes
    Downtimes(crate::commands::downtimes::DowntimesCmd),
    /// List and inspect synthetic tests
    Synthetics(crate::commands::synthetics::SyntheticsCmd),
    /// Search and inspect incidents
    Incidents(crate::commands::incidents::IncidentsCmd),
    /// Search and inspect notebooks
    Notebooks(crate::commands::notebooks::NotebooksCmd),
}

/// The commands of `ddog`.
pub open spec fn command_names() -> Seq<Seq<char>> {
    seq!["logs"@, "metrics"@, "events"@, "monitors"@, "hosts"@, "dashboards"@, "traces"@, "spans"@, "services"@, "apm"@, "slos"@, "downtimes"@, "synthetics"@, "incidents"@, "notebooks"@]
}

/// Whether `c` is command `k` holding what its part of the command line, `rest`
/// (its first token the command's name), gives.
pub open spec fn command_from(c: Command, k: int, rest: Seq<Seq<char>>) -> bool {
    match c {
        Command::Logs(c) => k == 0 && (crate::commands::logs::logs_command_line(rest) matches Ok((s, vals)) && crate::commands::logs::logs_from_values(c, s, vals)),
        Command::Metrics(c) => k == 1 && (crate::commands::metrics::metrics_command_line(rest) matches Ok((s, vals)) && crate::commands::metrics::metrics_from_values(c, s, vals)),
        Command::Events(a) => k == 2 && (crate::commands::events::events_command_line(rest) matches Ok(vals) && crate::commands::events::events_from_values(a, vals)),
        Command::Monitors(a) => k == 3 && (crate::commands::monitors::monitors_command_line(rest) matches Ok(vals) && crate::commands::monitors::monitors_from_values(a, vals)),
        Command::Hosts(a) => k == 4 && (crate::commands::hosts::hosts_command_line(rest) matches Ok(vals) && crate::commands::hosts::hosts_from_values(a, vals)),
        Command::Dashboards(a) => k == 5 && (crate::commands::dashboards::dashboards_command_line(rest) matches Ok(vals) && crate::commands::dashboards::dashboards_from_values(a, vals)),
        Command::Traces(a) => k == 6 && (crate::commands::traces::traces_command_line(rest) matches Ok(vals) && crate::commands::traces::traces_from_values(a, vals)),
        Command::Spans(a) => k == 7 && (crate::commands::spans::spans_command_line(rest) matches Ok(vals) && crate::commands::spans::spans_from_values(a, vals)),
        Command::Services(c) => k == 8 && (crate::commands::services::services_command_line(rest) matches Ok((s, vals)) && crate::commands::services::services_from_values(c, s, vals)),
        Command::Apm(c) => k == 9 && (crate::commands::apm::apm_command_line(rest) matches Ok((s, vals)) && crate::commands::apm::apm_from_values(c, s, vals)),
        Command::Slos(c) => k == 10 && (crate::commands::slos::slos_command_line(rest) matches Ok((s, vals)) && crate::commands::slos::slos_from_values(c, s, vals)),
        Command::Downtimes(c) => k == 11 && (crate::commands::downtimes::downtimes_command_line(rest) matches Ok((s, vals)) && crate::commands::downtimes::downtimes_from_values(c, s, vals)),
        Command::Synthetics(c) => k == 12 && (crate::commands::synthetics::synthetics_command_line(rest) matches Ok((s, vals)) && crate::commands::synthetics::synthetics_from_values(c, s, vals)),
        Command::Incidents(c) => k == 13 && (crate::commands::incidents::incidents_command_line(rest) matches Ok((s, vals)) && crate::commands::incidents::incidents_from_values(c, s, vals)),
        Command::Notebooks(c) => k == 14 && (crate::commands::notebooks::notebooks_command_line(rest) matches Ok((s, vals)) && crate::commands::notebooks::notebooks_from_values(c, s, vals)),
    }
}

/// The message refusing command `k`'s part of the command line, if it is refused.
pub open spec fn command_error(k: int, rest: Seq<Seq<char>>) -> Option<Seq<char>> {
    if k == 0 {
        match crate::commands::logs::logs_command_line(rest) {
            Err(e) => Some(e),
            Ok(_) => None,
        }
    } else if k == 1 {
        match crate::commands::metrics::metrics_command_line(rest) {
            Err(e) => Some(e),
            Ok(_) => None,
        }
    } else if k == 2 {
        match crate::commands::events::events_command_line(rest) {
            Err(e) => Some(e),
            Ok(_) => None,
        }
    } else if k == 3 {
        match crate::commands::monitors::monitors_command_line(rest) {
            Err(e) => Some(e),
            Ok(_) => None,
        }
    } else if k == 4 {
        match crate::commands::hosts::hosts_command_line(rest) {
            Err(e) => Some(e),
            Ok(_) => None,
        }
    } else if k == 5 {
        match crate::commands::dashboards::dashboards_command_line(rest) {
            Err(e) => Some(e),
            Ok(_) => None,
        }
    } else if k == 6 {
        match crate::commands::traces::traces_command_line(rest) {
            Err(e) => Some(e),
            Ok(_) => None,
        }
    } else if k == 7 {
        match crate::commands::spans::spans_command_line(rest) {
            Err(e) => Some(e),
            Ok(_) => None,
        }
    } else if k == 8 {
        match crate::commands::services::services_command_line(rest) {
            Err(e) => Some(e),
            Ok(_) => None,
        }
    } else if k == 9 {
        match crate::commands::apm::apm_command_line(rest) {
            Err(e) => Some(e),
            Ok(_) => None,
        }
    } else if k == 10 {
        match crate::commands::slos::slos_command_line(rest) {
            Err(e) => Some(e),
            Ok(_) => None,
        }
    } else if k == 11 {
        match crate::commands::downtimes::downtimes_command_line(rest) {
            Err(e) => Some(e),
            Ok(_) => None,
        }
    } else if k == 12 {
        match crate::commands::synthetics::synthetics_command_line(rest) {
            Err(e) => Some(e),
            Ok(_) => None,
        }
    } else if k == 13 {
        match crate::commands::incidents::incidents_command_line(rest) {
            Err(e) => Some(e),
            Ok(_) => None,
        }
    } else if k == 14 {
        match crate::commands::notebooks::notebooks_command_line(rest) {
            Err(e) => Some(e),
            Ok(_) => None,
        }
    } else {
        None
    }
}

/// What a `ddog` command line gives: the command its second token names, read
/// from the tokens after the program name; or the message refusing it.
pub open spec fn command_line(args: Seq<Seq<char>>) -> Result<(int, Seq<Seq<char>>), Seq<char>> {
    match subcommand_of(args, command_names()) {
        Err(e) => Err(e),
        Ok(k) => match command_error(k, args.skip(1)) {
            Some(e) => Err(e),
            None => Ok((k, args.skip(1))),
        },
    }
}

/// Reads a `ddog` command line, the first token being the program name.
pub fn parse_command(args: &[&str]) -> (r: Result<Command, CliError>)
    ensures
        match r {
            Ok(c) => command_line(lits(args@)) matches Ok((k, rest)) && command_from(c, k, rest),
            Err(e) => command_line(lits(args@)) == Err::<(int, Seq<Seq<char>>), Seq<char>>(e.message@),
        },
{
    let names: Vec<&'static str> = vec!["logs", "metrics", "events", "monitors", "hosts", "dashboards", "traces", "spans", "services", "apm", "slos", "downtimes", "synthetics", "incidents", "notebooks"];
    assert(lits(names@) =~= command_names());
    let k = match pick_subcommand(args, &names) {
        Ok(k) => k,
        Err(e) => return Err(e),
    };
    let mut rest: Vec<&str> = Vec::new();
    let mut i: usize = 1;
    while i < args.len()
        invariant
            1 <= i <= args@.len(),
            rest@ == args@.subrange(1, i as int),
        decreases args@.len() - i,
    {
        rest.push(args[i]);
        i = i + 1;
    }
    assert(lits(rest@) =~= lits(args@).skip(1));
    match k {
        0 => match crate::commands::logs::LogsCmd::try_parse_from(rest.as_slice()) {
            Ok(c) => Ok(Command::Logs(c)),
            Err(e) => Err(e),
        },
        1 => match crate::commands::metrics::MetricsCmd::try_parse_from(rest.as_slice()) {
            Ok(c) => Ok(Command::Metrics(c)),
            Err(e) => Err(e),
        },
        2 => match crate::commands::events::EventsSearch::try_parse_from(rest.as_slice()) {
            Ok(c) => Ok(Command::Events(c)),
            Err(e) => Err(e),
        },
        3 => match crate::commands::monitors::MonitorsSearch::try_parse_from(rest.as_slice()) {
            Ok(c) => Ok(Command::Monitors(c)),
            Err(e) => Err(e),
        },
        4 => match crate::commands::hosts::HostsSearch::try_parse_from(rest.as_slice()) {
            Ok(c) => Ok(Command::Hosts(c)),
            Err(e) => Err(e),
        },
        5 => match crate::commands::dashboards::DashboardsSearch::try_parse_from(rest.as_slice()) {
            Ok(c) => Ok(Command::Dashboards(c)),
            Err(e) => Err(e),
        },
        6 => match crate::commands::traces::TracesGet::try_parse_from(rest.as_slice()) {
            Ok(c) => Ok(Command::Traces(c)),
            Err(e) => Err(e),
        },
        7 => match crate::commands::spans::SpansSearch::try_parse_from(rest.as_slice()) {
            Ok(c) => Ok(Command::Spans(c)),
            Err(e) => Err(e),
        },
        8 => match crate::commands::services::ServicesCmd::try_parse_from(rest.as_slice()) {
            Ok(c) => Ok(Command::Services(c)),
            Err(e) => Err(e),
        },
        9 => match crate::commands::apm::ApmCmd::try_parse_from(rest.as_slice()) {
            Ok(c) => Ok(Command::Apm(c)),
            Err(e) => Err(e),
        },
        10 => match crate::commands::slos::SlosCmd::try_parse_from(rest.as_slice()) {
            Ok(c) => Ok(Command::Slos(c)),
            Err(e) => Err(e),
        },
        11 => match crate::commands::downtimes::DowntimesCmd::try_parse_from(rest.as_slice()) {
            Ok(c) => Ok(Command::Downtimes(c)),
            Err(e) => Err(e),
        },
        12 => match crate::commands::synthetics::SyntheticsCmd::try_parse_from(rest.as_slice()) {
            Ok(c) => Ok(Command::Synthetics(c)),
            Err(e) => Err(e),
        },
        13 => match crate::commands::incidents::IncidentsCmd::try_parse_from(rest.as_slice()) {
            Ok(c) => Ok(Command::Incidents(c)),
            Err(e) => Err(e),
        },
        14 => match crate::commands::notebooks::NotebooksCmd::try_parse_from(rest.as_slice()) {
            Ok(c) => Ok(Command::Notebooks(c)),
            Err(e) => Err(e),
        },
        _ => Err(CliError { message: String::new() }),
    }
}

} // verus!
