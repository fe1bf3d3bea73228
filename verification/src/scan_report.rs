//! What a scan finds, and the lines that report it.
use crate::board::Board;
use crate::text::{append_decimal, append_signed};
#[allow(unused_imports)]
use crate::text::{decimal, signed_decimal, text_of, texts};
use vstd::prelude::*;

verus! {

/// An access point that a scan found.
pub struct AccessPoint {
    /// The name of its network.
    pub ssid: String,
    /// Signal strength.
    pub signal: i8,
    /// How it authenticates, as text.
    pub auth: String,
    /// The channel it works on.
    pub channel: u8,
}

/// The names of the networks.
pub open spec fn ssids(found: Seq<AccessPoint>) -> Seq<Seq<char>> {
    found.map_values(|ap: AccessPoint| ap.ssid@)
}

/// The line that says how many networks were found.
pub open spec fn count_line(n: nat) -> Seq<char> {
    "Found "@ + decimal(n) + " networks:"@
}

/// The line on the access point with this number.
pub open spec fn network_line(number: nat, ap: AccessPoint) -> Seq<char> {
    "  "@ + decimal(number) + ": SSID: "@ + ap.ssid@ + ", Signal: "@ + signed_decimal(
        ap.signal as int,
    ) + ", Auth: "@ + ap.auth@ + ", Channel: "@ + decimal(ap.channel as nat)
}

/// The lines that report a scan: how many networks it found, then one line on each, numbered
/// from one.
pub open spec fn report_lines(found: Seq<AccessPoint>) -> Seq<Seq<char>> {
    seq![count_line(found.len())] + Seq::new(
        found.len(),
        |i: int| network_line((i + 1) as nat, found[i]),
    )
}

/// The line that says how many networks were found.
fn write_count_line(n: usize) -> (line: String)
    ensures
        line@ == count_line(n as nat),
{
    let mut line: String = String::new();
    line.append("Found ");
    append_decimal(&mut line, n);
    line.append(" networks:");
    assert(line@ =~= count_line(n as nat));
    line
}

/// The line on the access point with this number.
fn write_network_line(number: usize, ap: &AccessPoint) -> (line: String)
    ensures
        line@ == network_line(number as nat, *ap),
{
    let mut line: String = String::new();
    line.append("  ");
    append_decimal(&mut line, number);
    line.append(": SSID: ");
    line.append(ap.ssid.as_str());
    line.append(", Signal: ");
    append_signed(&mut line, ap.signal);
    line.append(", Auth: ");
    line.append(ap.auth.as_str());
    line.append(", Channel: ");
    append_decimal(&mut line, ap.channel as usize);
    assert(line@ =~= network_line(number as nat, *ap));
    line
}

/// The lines that report a scan: how many networks it found, then one line on each, numbered
/// from one.
pub fn scan_report(found: &Vec<AccessPoint>) -> (lines: Vec<String>)
    ensures
        lines@.len() == found@.len() + 1,
        lines@[0]@ == count_line(found@.len()),
        forall|i: int|
            0 <= i < found@.len() ==> #[trigger] lines@[i + 1]@ == network_line(
                (i + 1) as nat,
                found@[i],
            ),
        texts(lines@) == report_lines(found@),
{
    let mut lines: Vec<String> = Vec::new();
    lines.push(write_count_line(found.len()));
    let mut i: usize = 0;
    while i < found.len()
        invariant
            i <= found.len(),
            lines@.len() == i + 1,
            lines@[0]@ == count_line(found@.len()),
            forall|k: int|
                1 <= k <= i ==> #[trigger] lines@[k]@ == network_line(k as nat, found@[k - 1]),
        decreases found.len() - i,
    {
        lines.push(write_network_line(i + 1, &found[i]));
        i = i + 1;
    }
    assert(texts(lines@) =~= report_lines(found@));
    lines
}

/// The one line on a scan in a brief log.
pub open spec fn summary_line(n: nat) -> Seq<char> {
    "Found "@ + decimal(n) + " networks, updating UI"@
}

/// The lines that `board` logs on a scan as soon as it is over: the whole report, or in a
/// brief log one line if anything was found.
pub open spec fn logged_lines(board: Board, found: Seq<AccessPoint>) -> Seq<Seq<char>> {
    if !board.spec_logs_briefly() {
        report_lines(found)
    } else if found.len() > 0 {
        seq![summary_line(found.len())]
    } else {
        Seq::empty()
    }
}

/// The lines that `board` logs on a scan as soon as it is over.
pub fn scan_lines(board: Board, found: &Vec<AccessPoint>) -> (lines: Vec<String>)
    ensures
        texts(lines@) == logged_lines(board, found@),
{
    if !board.logs_briefly() {
        return scan_report(found);
    }
    let mut lines: Vec<String> = Vec::new();
    if found.len() > 0 {
        let mut line: String = String::new();
        line.append("Found ");
        append_decimal(&mut line, found.len());
        line.append(" networks, updating UI");
        assert(line@ =~= summary_line(found@.len()));
        lines.push(line);
    }
    assert(texts(lines@) =~= logged_lines(board, found@));
    lines
}

/// What `board` logs on the attempt to store `n` access points: whether it worked, or
/// nothing in a brief log.
pub open spec fn store_text(board: Board, stored: bool, n: nat) -> Option<Seq<char>> {
    if board.spec_logs_briefly() {
        None
    } else if stored {
        Some("Stored "@ + decimal(n) + " scan results for UI"@)
    } else {
        Some("Could not store scan results (mutex locked)"@)
    }
}

/// The line that `board` logs on the attempt to store `n` access points.
pub fn store_line(board: Board, stored: bool, n: usize) -> (line: Option<String>)
    ensures
        text_of(line) == store_text(board, stored, n as nat),
{
    if board.logs_briefly() {
        return None;
    }
    if !stored {
        return Some("Could not store scan results (mutex locked)".to_owned());
    }
    let mut line: String = String::new();
    line.append("Stored ");
    append_decimal(&mut line, n);
    line.append(" scan results for UI");
    assert(line@ =~= "Stored "@ + decimal(n as nat) + " scan results for UI"@);
    Some(line)
}

/// What a brief log adds, for debugging, once a scan that found `n` access points is dealt
/// with.
pub open spec fn details_text(board: Board, n: nat) -> Option<Seq<char>> {
    if board.spec_logs_briefly() && n > 0 {
        Some("Network details available for "@ + decimal(n) + " access points"@)
    } else {
        None
    }
}

/// The line that a brief log adds, for debugging, once a scan that found `n` access points
/// is dealt with.
pub fn details_line(board: Board, n: usize) -> (line: Option<String>)
    ensures
        text_of(line) == details_text(board, n as nat),
{
    if !board.logs_briefly() || n == 0 {
        return None;
    }
    let mut line: String = String::new();
    line.append("Network details available for ");
    append_decimal(&mut line, n);
    line.append(" access points");
    assert(line@ =~= "Network details available for "@ + decimal(n as nat) + " access points"@);
    Some(line)
}

/// The report of a scan has one line with the number of access points, and one line on each
/// access point, in the order found and numbered from one, with its own name, signal,
/// authentication and channel.
pub proof fn law_report_tells_of_every_access_point(found: Seq<AccessPoint>, i: int)
    ensures
        report_lines(found).len() == found.len() + 1,
        report_lines(found)[0] == "Found "@ + decimal(found.len()) + " networks:"@,
        0 <= i < found.len() ==> report_lines(found)[i + 1] == "  "@ + decimal((i + 1) as nat)
            + ": SSID: "@ + found[i].ssid@ + ", Signal: "@ + signed_decimal(found[i].signal as int)
            + ", Auth: "@ + found[i].auth@ + ", Channel: "@ + decimal(found[i].channel as nat),
{
}

/// What each board logs as soon as a scan is over: the ESoPe and the Box-3 the whole report,
/// even of an empty scan; the LCD-EV-Board a single line, and of an empty scan nothing.
pub proof fn law_lines_of_each_board(board: Board, found: Seq<AccessPoint>)
    ensures
        board != Board::LcdEv ==> logged_lines(board, found) == report_lines(found),
        board == Board::LcdEv && found.len() == 0 ==> logged_lines(board, found).len() == 0,
        board == Board::LcdEv && found.len() > 0 ==> logged_lines(board, found) == seq![
            "Found "@ + decimal(found.len()) + " networks, updating UI"@,
        ],
{
}

/// What each board logs when results were stored, or could not be: the LCD-EV-Board nothing,
/// but for a line on details, for debugging, after every scan that found something.
pub proof fn law_store_lines_of_each_board(board: Board, n: nat)
    ensures
        board != Board::LcdEv ==> store_text(board, true, n) == Some(
            "Stored "@ + decimal(n) + " scan results for UI"@,
        ),
        board != Board::LcdEv ==> store_text(board, false, n) == Some(
            "Could not store scan results (mutex locked)"@,
        ),
        board == Board::LcdEv ==> store_text(board, true, n) is None && store_text(
            board,
            false,
            n,
        ) is None,
        board == Board::LcdEv && n > 0 ==> details_text(board, n) == Some(
            "Network details available for "@ + decimal(n) + " access points"@,
        ),
        board != Board::LcdEv || n == 0 ==> details_text(board, n) is None,
{
}

/// The names of the networks are those of the access points, one by one and in order.
pub proof fn law_names_are_complete(found: Seq<AccessPoint>, i: int)
    ensures
        ssids(found).len() == found.len(),
        0 <= i < found.len() ==> ssids(found)[i] == found[i].ssid@,
{
}

} // verus!
