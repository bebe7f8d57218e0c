//! How a discovered registration is written out: one line for each.

use vstd::prelude::*;
use vstd::string::StringExecFns;
use crate::event::{address_texts, registration_views, Registration, RegistrationView};
use crate::identity::Address;

verus! {

/// `parts` in their order, with `separator` between each two.
pub open spec fn joined(parts: Seq<Seq<char>>, separator: Seq<char>) -> Seq<char>
    decreases parts.len(),
{
    if parts.len() == 0 {
        Seq::empty()
    } else if parts.len() == 1 {
        parts[0]
    } else {
        joined(parts.drop_last(), separator) + separator + parts.last()
    }
}

/// The line for one registration: who was discovered, and at which
/// addresses, separated by commas.
pub open spec fn discovered_line(registration: RegistrationView) -> Seq<char> {
    "Discovered peer "@ + registration.peer + " at "@ + joined(registration.addresses, ", "@)
}

/// The lines for `registrations`, one for each, in their order.
pub open spec fn discovered_lines(registrations: Seq<RegistrationView>) -> Seq<Seq<char>> {
    Seq::new(registrations.len(), |i: int| discovered_line(registrations[i]))
}

/// The texts of `lines`, in their order.
pub open spec fn line_texts(lines: Seq<String>) -> Seq<Seq<char>> {
    Seq::new(lines.len(), |i: int| lines[i]@)
}

/// Joining one part more adds the separator, unless it is the first, and
/// the part.
proof fn lemma_joined_grows(parts: Seq<Seq<char>>, separator: Seq<char>, n: int)
    requires
        0 <= n < parts.len(),
    ensures
        joined(parts.take(n + 1), separator) == (if n == 0 {
            parts[n]
        } else {
            joined(parts.take(n), separator) + separator + parts[n]
        }),
{
    let front = parts.take(n + 1);
    assert(front.last() == parts[n]);
    assert(front.drop_last() =~= parts.take(n));
}

/// Writes `addresses` out, separated by commas.
pub fn join_addresses(addresses: &Vec<Address>) -> (text: String)
    ensures
        text@ == joined(address_texts(addresses@), ", "@),
{
    let ghost parts = address_texts(addresses@);
    let mut text = String::new();
    let mut i: usize = 0;
    while i < addresses.len()
        invariant
            i <= addresses.len(),
            parts == address_texts(addresses@),
            text@ == joined(parts.take(i as int), ", "@),
        decreases addresses.len() - i,
    {
        proof {
            lemma_joined_grows(parts, ", "@, i as int);
        }
        if i > 0 {
            text.append(", ");
        }
        text.append(addresses[i].as_str());
        assert(text@ =~= joined(parts.take(i + 1), ", "@));
        i += 1;
    }
    assert(parts.take(i as int) =~= parts);
    text
}

/// Writes the line for one registration.
pub fn render_registration(registration: &Registration) -> (line: String)
    ensures
        line@ == discovered_line(registration@),
{
    let mut line = String::from_str("Discovered peer ");
    line.append(registration.peer.as_str());
    line.append(" at ");
    let addresses = join_addresses(&registration.addresses);
    line.append(addresses.as_str());
    line
}

/// Writes the lines for `registrations`: exactly one for each, in their
/// order.
pub fn render_registrations(registrations: &Vec<Registration>) -> (lines: Vec<String>)
    ensures
        line_texts(lines@) == discovered_lines(registration_views(registrations@)),
        lines@.len() == registrations@.len(),
{
    let mut lines: Vec<String> = Vec::new();
    let mut i: usize = 0;
    while i < registrations.len()
        invariant
            i <= registrations.len(),
            lines@.len() == i,
            forall|k: int| 0 <= k < i ==> (#[trigger] lines@[k])@ == discovered_line(
                registrations@[k]@,
            ),
        decreases registrations.len() - i,
    {
        let line = render_registration(&registrations[i]);
        lines.push(line);
        i += 1;
    }
    assert(line_texts(lines@) =~= discovered_lines(registration_views(registrations@)));
    lines
}

} // verus!
