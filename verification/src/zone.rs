//! The plain zone-file layout used for DNSPod and AliDNS exports.

use vstd::prelude::*;
use vstd::string::*;
use crate::error::prefixed;
use crate::models::{record_type_name, DnsRecord};
use crate::text::{pad_right, push_padded};

verus! {

/// One line: the record's name (30 wide), "IN", its type (10 wide), its content (50 wide).
pub open spec fn plain_zone_line(r: DnsRecord) -> Seq<char> {
    pad_right(r.name@, 30) + " IN "@ + pad_right(record_type_name(r.record_type), 10) + " "@
        + pad_right(r.content@, 50) + "\n"@
}

/// The lines of all records, in order.
pub open spec fn plain_zone_lines(records: Seq<DnsRecord>) -> Seq<char>
    decreases records.len(),
{
    if records.len() == 0 {
        Seq::empty()
    } else {
        plain_zone_lines(records.drop_last()) + plain_zone_line(records.last())
    }
}

/// The zone file: `$ORIGIN <domain>.`, `$TTL 600`, a blank line, then one line per record.
pub open spec fn plain_zone_text(domain_name: Seq<char>, records: Seq<DnsRecord>) -> Seq<char> {
    "$ORIGIN "@ + domain_name + ".\n"@ + "$TTL 600\n\n"@ + plain_zone_lines(records)
}

fn push_plain_line(zone: &mut String, r: &DnsRecord)
    ensures
        final(zone)@ == old(zone)@ + plain_zone_line(*r),
{
    push_padded(zone, r.name.as_str(), 30);
    zone.append(" IN ");
    push_padded(zone, r.record_type.as_str(), 10);
    zone.append(" ");
    push_padded(zone, r.content.as_str(), 50);
    zone.append("\n");
}

/// Renders a zone file for the domain named `domain_name` with the given records.
pub fn plain_zone(domain_name: &str, records: &Vec<DnsRecord>) -> (zone: String)
    ensures
        zone@ == plain_zone_text(domain_name@, records@),
{
    let mut zone = prefixed("$ORIGIN ", domain_name);
    zone.append(".\n");
    zone.append("$TTL 600\n\n");
    let ghost head = zone@;
    let mut i: usize = 0;
    while i < records.len()
        invariant
            i <= records@.len(),
            zone@ == head + plain_zone_lines(records@.take(i as int)),
        decreases records@.len() - i,
    {
        push_plain_line(&mut zone, &records[i]);
        proof {
            assert(records@.take(i as int + 1).drop_last() =~= records@.take(i as int));
            assert(records@.take(i as int + 1).last() == records@[i as int]);
        }
        i = i + 1;
    }
    assert(records@.take(records@.len() as int) =~= records@);
    zone
}

} // verus!
