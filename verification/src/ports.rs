//! Ports: which ones may be asked for, the search for free ports in a
//! range, and the ports that common frameworks serve on.
//!
//! Whether a port is free is found out by trying to bind it, which is not
//! done here. A search says which port to try next and is told how the
//! try went.

use vstd::prelude::*;
use crate::error::{ToolError, ToolFailure};
use crate::text::{append_decimal, decimal, joined, lowercase, same_text, to_lowercase};

verus! {

/// The message for a port search over a range that is the wrong way
/// round.
pub open spec fn reversed_range_reason(start: u16, end: u16) -> Seq<char> {
    "Start port ("@ + decimal(start as nat) + ") must be less than or equal to end port ("@
        + decimal(end as nat) + ")"@
}

/// The message for a search that is asked for more ports than its range
/// holds.
pub open spec fn range_too_small_reason(count: u32, size: nat) -> Seq<char> {
    "Requested "@ + decimal(count as nat) + " ports but range only contains "@ + decimal(size)
        + " ports"@
}

/// The message for a search for one port that found none.
pub open spec fn none_found_reason(start: u16, end: u16) -> Seq<char> {
    "No available ports found in range "@ + decimal(start as nat) + "-"@ + decimal(end as nat)
}

/// The message for a search that found fewer ports than it was asked for.
pub open spec fn too_few_reason(found: nat, count: nat) -> Seq<char> {
    "Only found "@ + decimal(found) + " available ports, but "@ + decimal(count)
        + " were requested"@
}

/// Why a range cannot be searched for `count` ports, if it cannot: a
/// bound is zero, the bounds are the wrong way round, or the range holds
/// fewer than `count` ports.
pub open spec fn range_failure(start: u16, end: u16, count: u32) -> Option<ToolFailure> {
    if start == 0 || end == 0 {
        Some(ToolFailure::invalid("Port numbers must be between 1 and 65535"@))
    } else if start > end {
        Some(ToolFailure::invalid(reversed_range_reason(start, end)))
    } else if count > end - start + 1 {
        Some(ToolFailure::invalid(range_too_small_reason(count, (end - start + 1) as nat)))
    } else {
        None
    }
}

/// Accepts every port but zero.
pub fn check_port(port: u16) -> (outcome: Result<(), ToolError>)
    ensures
        match outcome {
            Ok(_) => port != 0,
            Err(error) => port == 0 && error@ == ToolFailure::invalid(
                "Port number must be between 1 and 65535"@,
            ),
        },
{
    if port == 0 {
        Err(ToolError::invalid(String::from_str("Port number must be between 1 and 65535")))
    } else {
        Ok(())
    }
}

/// The address to bind in order to see whether `port` is free on every
/// interface.
pub fn bind_address(port: u16) -> (address: String)
    ensures
        address@ == "0.0.0.0:"@ + decimal(port as nat),
{
    let mut address = String::from_str("0.0.0.0:");
    append_decimal(&mut address, port as u64);
    address
}

/// The addresses to connect to in order to see whether something listens
/// on `port` of this machine, in the order in which they are tried.
pub fn loopback_addresses(port: u16) -> (addresses: Vec<String>)
    ensures
        addresses@.len() == 3,
        addresses@[0]@ == "127.0.0.1:"@ + decimal(port as nat),
        addresses@[1]@ == "[::1]:"@ + decimal(port as nat),
        addresses@[2]@ == "localhost:"@ + decimal(port as nat),
{
    let mut v4 = String::from_str("127.0.0.1:");
    append_decimal(&mut v4, port as u64);
    let mut v6 = String::from_str("[::1]:");
    append_decimal(&mut v6, port as u64);
    let mut named = String::from_str("localhost:");
    append_decimal(&mut named, port as u64);
    let mut addresses: Vec<String> = Vec::new();
    addresses.push(v4);
    addresses.push(v6);
    addresses.push(named);
    addresses
}

/// A search as contracts speak of it.
pub struct SearchView {
    /// The first port of the range.
    pub start: u16,
    /// The last port of the range.
    pub end: u16,
    /// How many free ports are looked for.
    pub wanted: nat,
    /// The port to try next; one past `end` when the range is used up.
    pub next: nat,
    /// The free ports found so far.
    pub found: Seq<u16>,
}

impl SearchView {
    /// The range is in order, and the ports found are ports of the range
    /// that were tried, in rising order, and no more than were asked for.
    pub open spec fn wf(self) -> bool {
        &&& 1 <= self.start <= self.end
        &&& self.start <= self.next <= self.end + 1
        &&& self.found.len() <= self.wanted
        &&& forall|i: int| 0 <= i < self.found.len() ==> self.start <= #[trigger] self.found[i] < self.next
        &&& forall|i: int, j: int|
            0 <= i < j < self.found.len() ==> #[trigger] self.found[i] < #[trigger] self.found[j]
    }

    /// The search before any port was tried.
    pub open spec fn initial(start: u16, end: u16, wanted: nat) -> SearchView {
        SearchView { start, end, wanted, next: start as nat, found: Seq::empty() }
    }

    /// The port to try next. There is none once enough ports were found or
    /// the range is used up.
    pub open spec fn pending(self) -> Option<u16> {
        if self.found.len() < self.wanted && self.next <= self.end {
            Some(self.next as u16)
        } else {
            None
        }
    }

    /// The search after the pending port was tried and was free, or not.
    pub open spec fn recorded(self, free: bool) -> SearchView {
        SearchView {
            next: self.next + 1,
            found: if free {
                self.found.push(self.next as u16)
            } else {
                self.found
            },
            ..self
        }
    }

    /// The search after one port after another was tried with the
    /// outcomes `answers`, for as long as a port was pending.
    pub open spec fn scanned(self, answers: Seq<bool>) -> SearchView
        decreases answers.len(),
    {
        if answers.len() == 0 || self.pending() is None {
            self
        } else {
            self.recorded(answers[0]).scanned(answers.drop_first())
        }
    }

    /// What a search for several ports comes to: the ports found, where
    /// they are as many as were asked for.
    pub open spec fn outcome(self) -> Result<Seq<u16>, ToolFailure> {
        if self.found.len() < self.wanted {
            Err(ToolFailure::generic(too_few_reason(self.found.len(), self.wanted)))
        } else {
            Ok(self.found)
        }
    }

    /// What a search for one port comes to: the first port found.
    pub open spec fn single_outcome(self) -> Result<u16, ToolFailure> {
        if self.found.len() == 0 {
            Err(ToolFailure::generic(none_found_reason(self.start, self.end)))
        } else {
            Ok(self.found[0])
        }
    }
}

/// Trying a port keeps the search in order and brings it nearer to the
/// end of its range.
pub proof fn lemma_search_ends(search: SearchView, free: bool)
    requires
        search.wf(),
        search.pending() is Some,
    ensures
        search.recorded(free).wf(),
        search.end + 1 - search.recorded(free).next < search.end + 1 - search.next,
{
}

/// A search finds the free ports in rising order and skips none: after
/// any row of tries, the ports newly found are exactly the ports tried
/// that were free.
pub proof fn lemma_scan_finds_free_ports(search: SearchView, answers: Seq<bool>)
    requires
        search.wf(),
    ensures
        search.scanned(answers).wf(),
        search.next <= search.scanned(answers).next <= search.next + answers.len(),
        search.scanned(answers).found.len() >= search.found.len(),
        search.scanned(answers).found.subrange(0, search.found.len() as int) == search.found,
        forall|port: int|
            search.next <= port < search.scanned(answers).next ==> (answers[port - search.next]
                <==> #[trigger] search.scanned(answers).found.contains(port as u16)),
    decreases answers.len(),
{
    let done = search.scanned(answers);
    if answers.len() == 0 || search.pending() is None {
        assert(done.found.subrange(0, search.found.len() as int) =~= search.found);
    } else {
        let tried = search.recorded(answers[0]);
        let rest = answers.drop_first();
        lemma_search_ends(search, answers[0]);
        lemma_scan_finds_free_ports(tried, rest);
        assert(done == tried.scanned(rest));
        assert(done.found.subrange(0, search.found.len() as int) =~= search.found) by {
            assert(done.found.subrange(0, tried.found.len() as int) == tried.found);
            assert forall|i: int| 0 <= i < search.found.len() implies done.found[i]
                == search.found[i] by {
                assert(done.found.subrange(0, tried.found.len() as int)[i] == tried.found[i]);
            }
        }
        assert forall|port: int| search.next <= port < done.next implies (answers[port
            - search.next] <==> #[trigger] done.found.contains(port as u16)) by {
            if port == search.next {
                if answers[0] {
                    let at = search.found.len() as int;
                    assert(tried.found[at] == port as u16);
                    assert(done.found.subrange(0, tried.found.len() as int)[at] == tried.found[at]);
                    assert(done.found[at] == port as u16);
                } else {
                    if done.found.contains(port as u16) {
                        let at = choose|at: int|
                            0 <= at < done.found.len() && done.found[at] == port as u16;
                        if at < tried.found.len() {
                            assert(done.found.subrange(0, tried.found.len() as int)[at]
                                == tried.found[at]);
                            assert(tried.found[at] < search.next);
                        } else {
                            lemma_later_finds_are_later(tried, rest, at);
                        }
                    }
                }
            } else {
                assert(rest[port - tried.next] == answers[port - search.next]);
            }
        }
    }
}

/// What a row of tries adds to the ports found are ports that were
/// pending at the start of the row or later.
pub proof fn lemma_later_finds_are_later(search: SearchView, answers: Seq<bool>, at: int)
    requires
        search.wf(),
        search.found.len() <= at < search.scanned(answers).found.len(),
    ensures
        search.scanned(answers).found[at] >= search.next,
    decreases answers.len(),
{
    if answers.len() == 0 || search.pending() is None {
    } else {
        let tried = search.recorded(answers[0]);
        let rest = answers.drop_first();
        lemma_search_ends(search, answers[0]);
        lemma_scan_finds_free_ports(tried, rest);
        if at < tried.found.len() {
            assert(tried.scanned(rest).found.subrange(0, tried.found.len() as int)[at]
                == tried.found[at]);
        } else {
            lemma_later_finds_are_later(tried, rest, at);
        }
    }
}

/// A search for free ports in a range.
#[derive(Debug, Clone, PartialEq, Eq)]
pub struct PortSearch {
    start: u16,
    end: u16,
    wanted: u32,
    next: u32,
    found: Vec<u16>,
}

impl View for PortSearch {
    type V = SearchView;

    closed spec fn view(&self) -> SearchView {
        SearchView {
            start: self.start,
            end: self.end,
            wanted: self.wanted as nat,
            next: self.next as nat,
            found: self.found@,
        }
    }
}

impl PortSearch {
    /// A search for `count` free ports from `start_port` to `end_port`,
    /// both included.
    pub fn new(start_port: u16, end_port: u16, count: u32) -> (outcome: Result<
        PortSearch,
        ToolError,
    >)
        ensures
            match outcome {
                Ok(search) => range_failure(start_port, end_port, count) is None && search@
                    == SearchView::initial(start_port, end_port, count as nat) && search@.wf(),
                Err(error) => range_failure(start_port, end_port, count) == Some(error@),
            },
    {
        if start_port == 0 || end_port == 0 {
            return Err(
                ToolError::invalid(String::from_str("Port numbers must be between 1 and 65535")),
            );
        }
        if start_port > end_port {
            let mut reason = String::from_str("Start port (");
            append_decimal(&mut reason, start_port as u64);
            reason.append(") must be less than or equal to end port (");
            append_decimal(&mut reason, end_port as u64);
            reason.append(")");
            return Err(ToolError::invalid(reason));
        }
        let size: u32 = (end_port - start_port) as u32 + 1;
        if count > size {
            let mut reason = String::from_str("Requested ");
            append_decimal(&mut reason, count as u64);
            reason.append(" ports but range only contains ");
            append_decimal(&mut reason, size as u64);
            reason.append(" ports");
            return Err(ToolError::invalid(reason));
        }
        Ok(
            PortSearch {
                start: start_port,
                end: end_port,
                wanted: count,
                next: start_port as u32,
                found: Vec::new(),
            },
        )
    }

    /// A search for the first free port from `start_port` to `end_port`,
    /// both included.
    pub fn single(start_port: u16, end_port: u16) -> (outcome: Result<PortSearch, ToolError>)
        ensures
            match outcome {
                Ok(search) => range_failure(start_port, end_port, 1) is None && search@
                    == SearchView::initial(start_port, end_port, 1) && search@.wf(),
                Err(error) => range_failure(start_port, end_port, 1) == Some(error@),
            },
    {
        PortSearch::new(start_port, end_port, 1)
    }

    /// The port to try next, if the search is not over.
    pub fn next_probe(&self) -> (port: Option<u16>)
        requires
            self@.wf(),
        ensures
            port == self@.pending(),
    {
        if self.found.len() < self.wanted as usize && self.next <= self.end as u32 {
            Some(self.next as u16)
        } else {
            None
        }
    }

    /// Takes note of how the try of the pending port went. Where no port
    /// is pending there is nothing to note, and the search stays as it is.
    pub fn record(&mut self, free: bool)
        requires
            old(self)@.wf(),
        ensures
            final(self)@.wf(),
            final(self)@ == if old(self)@.pending() is Some {
                old(self)@.recorded(free)
            } else {
                old(self)@
            },
    {
        if self.found.len() < self.wanted as usize && self.next <= self.end as u32 {
            if free {
                self.found.push(self.next as u16);
            }
            self.next = self.next + 1;
        }
    }

    /// The ports found, where they are as many as were asked for.
    pub fn finish(self) -> (outcome: Result<Vec<u16>, ToolError>)
        requires
            self@.wf(),
        ensures
            match outcome {
                Ok(ports) => self@.outcome() == Ok::<Seq<u16>, ToolFailure>(ports@),
                Err(error) => self@.outcome() == Err::<Seq<u16>, ToolFailure>(error@),
            },
    {
        if self.found.len() < self.wanted as usize {
            let mut reason = String::from_str("Only found ");
            append_decimal(&mut reason, self.found.len() as u64);
            reason.append(" available ports, but ");
            append_decimal(&mut reason, self.wanted as u64);
            reason.append(" were requested");
            Err(ToolError::generic(reason))
        } else {
            Ok(self.found)
        }
    }

    /// The first port found, where one was found.
    pub fn finish_single(self) -> (outcome: Result<u16, ToolError>)
        requires
            self@.wf(),
        ensures
            match outcome {
                Ok(port) => self@.single_outcome() == Ok::<u16, ToolFailure>(port),
                Err(error) => self@.single_outcome() == Err::<u16, ToolFailure>(error@),
            },
    {
        if self.found.len() == 0 {
            let mut reason = String::from_str("No available ports found in range ");
            append_decimal(&mut reason, self.start as u64);
            reason.append("-");
            append_decimal(&mut reason, self.end as u64);
            Err(ToolError::generic(reason))
        } else {
            Ok(self.found[0])
        }
    }
}

/// The port that a framework's development server uses unless told
/// otherwise, by the framework's name in lower case.
pub open spec fn default_port_of(name: Seq<char>) -> Option<u16> {
    if name == "react"@ || name == "create-react-app"@ || name == "cra"@ {
        Some(3000u16)
    } else if name == "next"@ || name == "nextjs"@ || name == "next.js"@ {
        Some(3000u16)
    } else if name == "vite"@ || name == "vitejs"@ {
        Some(5173u16)
    } else if name == "vue"@ || name == "vuejs"@ {
        Some(8080u16)
    } else if name == "angular"@ {
        Some(4200u16)
    } else if name == "svelte"@ || name == "sveltekit"@ {
        Some(5173u16)
    } else if name == "nuxt"@ || name == "nuxtjs"@ {
        Some(3000u16)
    } else if name == "express"@ {
        Some(3000u16)
    } else if name == "fastify"@ {
        Some(3000u16)
    } else if name == "nest"@ || name == "nestjs"@ {
        Some(3000u16)
    } else if name == "gatsby"@ {
        Some(8000u16)
    } else if name == "remix"@ {
        Some(3000u16)
    } else if name == "astro"@ {
        Some(3000u16)
    } else {
        None
    }
}

/// The default port of the framework with the lower-case name `name`, if
/// the framework is known.
pub fn known_default_port(name: &str) -> (port: Option<u16>)
    ensures
        port == default_port_of(name@),
{
    if same_text(name, "react") || same_text(name, "create-react-app") || same_text(name, "cra") {
        Some(3000)
    } else if same_text(name, "next") || same_text(name, "nextjs") || same_text(name, "next.js") {
        Some(3000)
    } else if same_text(name, "vite") || same_text(name, "vitejs") {
        Some(5173)
    } else if same_text(name, "vue") || same_text(name, "vuejs") {
        Some(8080)
    } else if same_text(name, "angular") {
        Some(4200)
    } else if same_text(name, "svelte") || same_text(name, "sveltekit") {
        Some(5173)
    } else if same_text(name, "nuxt") || same_text(name, "nuxtjs") {
        Some(3000)
    } else if same_text(name, "express") {
        Some(3000)
    } else if same_text(name, "fastify") {
        Some(3000)
    } else if same_text(name, "nest") || same_text(name, "nestjs") {
        Some(3000)
    } else if same_text(name, "gatsby") {
        Some(8000)
    } else if same_text(name, "remix") {
        Some(3000)
    } else if same_text(name, "astro") {
        Some(3000)
    } else {
        None
    }
}

/// The default port of a framework, whose name may be written in any
/// case. An unknown framework is refused, with its name as it was given.
pub fn get_default_port(framework: String) -> (outcome: Result<u16, ToolError>)
    ensures
        match default_port_of(lowercase(framework@)) {
            Some(port) => outcome == Ok::<u16, ToolError>(port),
            None => outcome matches Err(error) && error@ == ToolFailure::invalid(
                "Unknown framework: "@ + framework@,
            ),
        },
{
    let lowered = to_lowercase(framework.as_str());
    match known_default_port(lowered.as_str()) {
        Some(port) => Ok(port),
        None => Err(ToolError::invalid(joined("Unknown framework: ", framework.as_str()))),
    }
}

} // verus!
