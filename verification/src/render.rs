//! The dashboard text: summary lines, the column header and one row per
//! enclave, laid out exactly as the terminal shows them. Styling escapes
//! and cursor control stay with the terminal collaborator; the library
//! produces the plain text.

use crate::flags::state_chars;
use crate::memory::mem_chars;
use crate::rates::Rates;
use crate::records::{Enclave, GlobalSnapshot};
use crate::text::{dec_chars, pad_left, rjust, u64_to_string};
use vstd::prelude::*;

verus! {

/// The first summary line: enclaves currently alive and enclaves created.
pub open spec fn running_line(g: GlobalSnapshot) -> Seq<char> {
    dec_chars((g.created - g.released) as nat) + " enclaves running, total "@ + dec_chars(
        g.created as nat,
    ) + " enclaves created\n\r"@
}

/// The second summary line: page-allocation and page-free rates.
pub open spec fn alloc_rates_line(r: Rates) -> Seq<char> {
    "eadd "@ + mem_chars(r.eadd.0) + "/s, eremove "@ + mem_chars(r.eremove.0) + "/s \n\r"@
}

/// The third summary line: write-back and load-back rates.
pub open spec fn paging_rates_line(r: Rates) -> Seq<char> {
    "ewb "@ + mem_chars(r.ewb.0) + "/s, eldu "@ + mem_chars(r.eldu.0) + "/s \n\r"@
}

/// The fourth summary line: protected-memory capacity, free, used and
/// version-array quantities.
pub open spec fn epc_line(g: GlobalSnapshot) -> Seq<char> {
    "EPC mem: "@ + mem_chars(g.total_epc.0) + " total, "@ + mem_chars(g.free_pages.0) + " free, "@
        + mem_chars((g.total_epc.0 - g.free_pages.0) as u64) + " used, "@ + mem_chars(g.va_pages.0)
        + " VA\n\r"@
}

/// The fifth summary line: the swap backlog.
pub open spec fn swap_line(r: Rates) -> Seq<char> {
    "Swap: "@ + mem_chars(r.swap_backlog.0) + "\n\r"@
}

/// The column header row, without the styling that surrounds it.
pub open spec fn header_chars() -> Seq<char> {
    rjust("EID"@, 8) + " "@ + rjust("PID"@, 8) + " "@ + rjust("VIRT"@, 8) + " "@ + rjust(
        "EADDs"@,
        8,
    ) + " "@ + rjust("RSS"@, 8) + " "@ + rjust("SWAP"@, 8) + " "@ + rjust("VA"@, 8) + " "@ + rjust(
        "state"@,
        10,
    ) + " Command"@
}

/// One table row: the enclave's fields in column order, then the
/// best-effort command line of its owning process.
pub open spec fn row_chars(e: Enclave, cmd: Seq<char>) -> Seq<char> {
    rjust(dec_chars(e.eid as nat), 8) + " "@ + rjust(dec_chars(e.pid as nat), 8) + " "@ + mem_chars(
        e.virt.0,
    ) + " "@ + mem_chars(e.eadds.0) + " "@ + mem_chars(e.rss.0) + " "@ + mem_chars(e.swap.0) + " "@
        + mem_chars(e.va.0) + " "@ + state_chars(e.state.0) + " "@ + cmd + "\n\r"@
}

/// The first summary line as text.
pub fn running_line_text(g: &GlobalSnapshot) -> (r: String)
    requires
        g.wf(),
    ensures
        r@ == running_line(*g),
{
    let mut s = u64_to_string(g.running());
    s.append(" enclaves running, total ");
    let created = u64_to_string(g.created);
    s.append(created.as_str());
    s.append(" enclaves created\n\r");
    proof {
        assert(s@ =~= running_line(*g));
    }
    s
}

/// The second summary line as text.
pub fn alloc_rates_line_text(r: &Rates) -> (t: String)
    ensures
        t@ == alloc_rates_line(*r),
{
    let mut s = String::from_str("eadd ");
    let eadd = r.eadd.render();
    s.append(eadd.as_str());
    s.append("/s, eremove ");
    let eremove = r.eremove.render();
    s.append(eremove.as_str());
    s.append("/s \n\r");
    proof {
        assert(s@ =~= alloc_rates_line(*r));
    }
    s
}

/// The third summary line as text.
pub fn paging_rates_line_text(r: &Rates) -> (t: String)
    ensures
        t@ == paging_rates_line(*r),
{
    let mut s = String::from_str("ewb ");
    let ewb = r.ewb.render();
    s.append(ewb.as_str());
    s.append("/s, eldu ");
    let eldu = r.eldu.render();
    s.append(eldu.as_str());
    s.append("/s \n\r");
    proof {
        assert(s@ =~= paging_rates_line(*r));
    }
    s
}

/// The fourth summary line as text.
pub fn epc_line_text(g: &GlobalSnapshot) -> (t: String)
    requires
        g.wf(),
    ensures
        t@ == epc_line(*g),
{
    let mut s = String::from_str("EPC mem: ");
    let total = g.total_epc.render();
    s.append(total.as_str());
    s.append(" total, ");
    let free = g.free_pages.render();
    s.append(free.as_str());
    s.append(" free, ");
    let used = g.used().render();
    s.append(used.as_str());
    s.append(" used, ");
    let va = g.va_pages.render();
    s.append(va.as_str());
    s.append(" VA\n\r");
    proof {
        assert(s@ =~= epc_line(*g));
    }
    s
}

/// The fifth summary line as text.
pub fn swap_line_text(r: &Rates) -> (t: String)
    ensures
        t@ == swap_line(*r),
{
    let mut s = String::from_str("Swap: ");
    let backlog = r.swap_backlog.render();
    s.append(backlog.as_str());
    s.append("\n\r");
    proof {
        assert(s@ =~= swap_line(*r));
    }
    s
}

/// The column header row as text.
pub fn header_text() -> (t: String)
    ensures
        t@ == header_chars(),
{
    let mut s = pad_left(String::from_str("EID"), 8);
    s.append(" ");
    let pid = pad_left(String::from_str("PID"), 8);
    s.append(pid.as_str());
    s.append(" ");
    let virt = pad_left(String::from_str("VIRT"), 8);
    s.append(virt.as_str());
    s.append(" ");
    let eadds = pad_left(String::from_str("EADDs"), 8);
    s.append(eadds.as_str());
    s.append(" ");
    let rss = pad_left(String::from_str("RSS"), 8);
    s.append(rss.as_str());
    s.append(" ");
    let swap = pad_left(String::from_str("SWAP"), 8);
    s.append(swap.as_str());
    s.append(" ");
    let va = pad_left(String::from_str("VA"), 8);
    s.append(va.as_str());
    s.append(" ");
    let state = pad_left(String::from_str("state"), 10);
    s.append(state.as_str());
    s.append(" Command");
    proof {
        assert(s@ =~= header_chars());
    }
    s
}

/// One table row as text.
pub fn row_text(e: &Enclave, cmd: &str) -> (t: String)
    ensures
        t@ == row_chars(*e, cmd@),
{
    let mut s = pad_left(u64_to_string(e.eid), 8);
    s.append(" ");
    let pid = pad_left(u64_to_string(e.pid), 8);
    s.append(pid.as_str());
    s.append(" ");
    let virt = e.virt.render();
    s.append(virt.as_str());
    s.append(" ");
    let eadds = e.eadds.render();
    s.append(eadds.as_str());
    s.append(" ");
    let rss = e.rss.render();
    s.append(rss.as_str());
    s.append(" ");
    let swap = e.swap.render();
    s.append(swap.as_str());
    s.append(" ");
    let va = e.va.render();
    s.append(va.as_str());
    s.append(" ");
    let state = e.state.render();
    s.append(state.as_str());
    s.append(" ");
    s.append(cmd);
    s.append("\n\r");
    proof {
        assert(s@ =~= row_chars(*e, cmd@));
    }
    s
}

/// One full dashboard frame: the five summary lines, the column header
/// (to be styled by the terminal collaborator) and one row per enclave,
/// in the parser's order.
pub struct Frame {
    /// The five summary lines, each ending in a line break.
    pub summary: Vec<String>,
    /// The column header, without styling or line break.
    pub header: String,
    /// One line per enclave record, in input order.
    pub rows: Vec<String>,
}

/// Lay out one full frame from this tick's snapshot, rates and records.
/// `commands` holds the best-effort command line of each record's owning
/// process, matched by position.
pub fn render_frame(
    g: &GlobalSnapshot,
    rates: &Rates,
    enclaves: &Vec<Enclave>,
    commands: &Vec<String>,
) -> (f: Frame)
    requires
        g.wf(),
        commands@.len() == enclaves@.len(),
    ensures
        f.summary.deep_view() == seq![
            running_line(*g),
            alloc_rates_line(*rates),
            paging_rates_line(*rates),
            epc_line(*g),
            swap_line(*rates),
        ],
        f.header@ == header_chars(),
        f.rows@.len() == enclaves@.len(),
        forall|i: int|
            0 <= i < enclaves@.len() ==> #[trigger] f.rows.deep_view()[i] == row_chars(
                enclaves@[i],
                commands@[i]@,
            ),
{
    let mut summary: Vec<String> = Vec::new();
    summary.push(running_line_text(g));
    summary.push(alloc_rates_line_text(rates));
    summary.push(paging_rates_line_text(rates));
    summary.push(epc_line_text(g));
    summary.push(swap_line_text(rates));
    proof {
        assert(summary.deep_view() =~~= seq![
            running_line(*g),
            alloc_rates_line(*rates),
            paging_rates_line(*rates),
            epc_line(*g),
            swap_line(*rates),
        ]);
    }
    let header = header_text();
    let mut rows: Vec<String> = Vec::new();
    let mut i: usize = 0;
    while i < enclaves.len()
        invariant
            commands@.len() == enclaves@.len(),
            i <= enclaves@.len(),
            rows@.len() == i,
            forall|j: int|
                0 <= j < i ==> #[trigger] rows.deep_view()[j] == row_chars(
                    enclaves@[j],
                    commands@[j]@,
                ),
        decreases enclaves@.len() - i,
    {
        let row = row_text(&enclaves[i], commands[i].as_str());
        let ghost prev = rows.deep_view();
        let ghost row_view = row@;
        rows.push(row);
        i += 1;
        proof {
            assert(rows.deep_view() =~~= prev.push(row_view));
        }
    }
    Frame { summary, header, rows }
}

} // verus!
