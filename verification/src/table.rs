//! The standard routing table: a static, coarse geography-to-region
//! policy. North and South America and
//! Asia-Pacific edge locations route to the US origin; Europe and
//! Africa route to the EU origin. This is configuration data, not
//! behavior: the table may be swapped without touching the selector.

use vstd::prelude::*;
use crate::origin::Origin;
use crate::origin::OriginView;
use crate::origin::OriginTable;
use crate::origin::TableEntry;
use crate::origin::TableEntryView;

verus! {

/// One block of the standard table's entries.
pub open spec fn standard_entries_a(eu: OriginView, us: OriginView) -> Seq<TableEntryView> {
    seq![
        TableEntryView { pop: "AMS"@, origin: eu },
        TableEntryView { pop: "WDC"@, origin: us },
        TableEntryView { pop: "IAD"@, origin: us },
        TableEntryView { pop: "BWI"@, origin: us },
        TableEntryView { pop: "DCA"@, origin: us },
        TableEntryView { pop: "ATL"@, origin: us },
        TableEntryView { pop: "FTY"@, origin: us },
        TableEntryView { pop: "PDK"@, origin: us },
        TableEntryView { pop: "AKL"@, origin: us },
        TableEntryView { pop: "BOG"@, origin: us },
        TableEntryView { pop: "BOS"@, origin: us },
        TableEntryView { pop: "BNE"@, origin: us },
        TableEntryView { pop: "EZE"@, origin: us },
        TableEntryView { pop: "CPT"@, origin: eu },
        TableEntryView { pop: "MAA"@, origin: us },
        TableEntryView { pop: "ORD"@, origin: us },
        TableEntryView { pop: "LOT"@, origin: us },
        TableEntryView { pop: "CHI"@, origin: us },
        TableEntryView { pop: "MDW"@, origin: us },
        TableEntryView { pop: "PWK"@, origin: us },
        TableEntryView { pop: "CMH"@, origin: us },
        TableEntryView { pop: "LCK"@, origin: us },
        TableEntryView { pop: "CPH"@, origin: eu },
        TableEntryView { pop: "CWB"@, origin: us },
        TableEntryView { pop: "DFW"@, origin: us },
    ]
}
/// One block of the standard table's entries.
pub open spec fn standard_entries_b(eu: OriginView, us: OriginView) -> Seq<TableEntryView> {
    seq![
        TableEntryView { pop: "DAL"@, origin: us },
        TableEntryView { pop: "DEL"@, origin: us },
        TableEntryView { pop: "DEN"@, origin: us },
        TableEntryView { pop: "DTW"@, origin: us },
        TableEntryView { pop: "DXB"@, origin: us },
        TableEntryView { pop: "DUB"@, origin: eu },
        TableEntryView { pop: "FOR"@, origin: us },
        TableEntryView { pop: "FRA"@, origin: eu },
        TableEntryView { pop: "HHN"@, origin: eu },
        TableEntryView { pop: "FJR"@, origin: us },
        TableEntryView { pop: "GNV"@, origin: us },
        TableEntryView { pop: "ACC"@, origin: eu },
        TableEntryView { pop: "HEL"@, origin: eu },
        TableEntryView { pop: "HKG"@, origin: us },
        TableEntryView { pop: "HNL"@, origin: us },
        TableEntryView { pop: "IAH"@, origin: us },
        TableEntryView { pop: "HYD"@, origin: us },
        TableEntryView { pop: "JAX"@, origin: us },
        TableEntryView { pop: "JNB"@, origin: eu },
        TableEntryView { pop: "MCI"@, origin: us },
        TableEntryView { pop: "CCU"@, origin: us },
        TableEntryView { pop: "KUL"@, origin: us },
        TableEntryView { pop: "LIM"@, origin: us },
        TableEntryView { pop: "LCY"@, origin: eu },
        TableEntryView { pop: "LHR"@, origin: eu },
    ]
}
/// One block of the standard table's entries.
pub open spec fn standard_entries_c(eu: OriginView, us: OriginView) -> Seq<TableEntryView> {
    seq![
        TableEntryView { pop: "LON"@, origin: eu },
        TableEntryView { pop: "LGB"@, origin: us },
        TableEntryView { pop: "SMO"@, origin: us },
        TableEntryView { pop: "BUR"@, origin: us },
        TableEntryView { pop: "MAD"@, origin: eu },
        TableEntryView { pop: "MAN"@, origin: eu },
        TableEntryView { pop: "MNL"@, origin: us },
        TableEntryView { pop: "MRS"@, origin: eu },
        TableEntryView { pop: "MEL"@, origin: us },
        TableEntryView { pop: "MIA"@, origin: us },
        TableEntryView { pop: "MXP"@, origin: eu },
        TableEntryView { pop: "LIN"@, origin: eu },
        TableEntryView { pop: "MSP"@, origin: us },
        TableEntryView { pop: "STP"@, origin: us },
        TableEntryView { pop: "YUL"@, origin: us },
        TableEntryView { pop: "BOM"@, origin: us },
        TableEntryView { pop: "MUC"@, origin: eu },
        TableEntryView { pop: "LGA"@, origin: us },
        TableEntryView { pop: "EWR"@, origin: us },
        TableEntryView { pop: "ITM"@, origin: us },
        TableEntryView { pop: "OSL"@, origin: eu },
        TableEntryView { pop: "PAO"@, origin: us },
        TableEntryView { pop: "CDG"@, origin: eu },
        TableEntryView { pop: "PER"@, origin: us },
        TableEntryView { pop: "PHX"@, origin: us },
    ]
}
/// One block of the standard table's entries.
pub open spec fn standard_entries_d(eu: OriginView, us: OriginView) -> Seq<TableEntryView> {
    seq![
        TableEntryView { pop: "PDX"@, origin: us },
        TableEntryView { pop: "GIG"@, origin: us },
        TableEntryView { pop: "FCO"@, origin: eu },
        TableEntryView { pop: "SJC"@, origin: us },
        TableEntryView { pop: "SCL"@, origin: us },
        TableEntryView { pop: "CGH"@, origin: us },
        TableEntryView { pop: "GRU"@, origin: us },
        TableEntryView { pop: "SEA"@, origin: us },
        TableEntryView { pop: "BFI"@, origin: us },
        TableEntryView { pop: "ICN"@, origin: us },
        TableEntryView { pop: "QPG"@, origin: us },
        TableEntryView { pop: "SOF"@, origin: eu },
        TableEntryView { pop: "STL"@, origin: us },
        TableEntryView { pop: "BMA"@, origin: eu },
        TableEntryView { pop: "SYD"@, origin: us },
        TableEntryView { pop: "TYO"@, origin: us },
        TableEntryView { pop: "HND"@, origin: us },
        TableEntryView { pop: "NRT"@, origin: us },
        TableEntryView { pop: "YYZ"@, origin: us },
        TableEntryView { pop: "YVR"@, origin: us },
        TableEntryView { pop: "VIE"@, origin: eu },
        TableEntryView { pop: "WLG"@, origin: us },
    ]
}

/// The entries of the standard table, in order, given the two origins.
pub open spec fn standard_entries(eu: OriginView, us: OriginView) -> Seq<TableEntryView> {
    standard_entries_a(eu, us) + standard_entries_b(eu, us) + standard_entries_c(eu, us)
        + standard_entries_d(eu, us)
}

#[verifier::rlimit(60)]
fn push_entries_a(entries: &mut Vec<TableEntry>, eu: &Origin, us: &Origin)
    ensures
        final(entries)@.map_values(|e: TableEntry| e@) == old(entries)@.map_values(
            |e: TableEntry| e@,
        ) + standard_entries_a(eu@, us@),
{
    entries.push(TableEntry { pop: "AMS".to_owned(), origin: eu.duplicate() });
    entries.push(TableEntry { pop: "WDC".to_owned(), origin: us.duplicate() });
    entries.push(TableEntry { pop: "IAD".to_owned(), origin: us.duplicate() });
    entries.push(TableEntry { pop: "BWI".to_owned(), origin: us.duplicate() });
    entries.push(TableEntry { pop: "DCA".to_owned(), origin: us.duplicate() });
    entries.push(TableEntry { pop: "ATL".to_owned(), origin: us.duplicate() });
    entries.push(TableEntry { pop: "FTY".to_owned(), origin: us.duplicate() });
    entries.push(TableEntry { pop: "PDK".to_owned(), origin: us.duplicate() });
    entries.push(TableEntry { pop: "AKL".to_owned(), origin: us.duplicate() });
    entries.push(TableEntry { pop: "BOG".to_owned(), origin: us.duplicate() });
    entries.push(TableEntry { pop: "BOS".to_owned(), origin: us.duplicate() });
    entries.push(TableEntry { pop: "BNE".to_owned(), origin: us.duplicate() });
    entries.push(TableEntry { pop: "EZE".to_owned(), origin: us.duplicate() });
    entries.push(TableEntry { pop: "CPT".to_owned(), origin: eu.duplicate() });
    entries.push(TableEntry { pop: "MAA".to_owned(), origin: us.duplicate() });
    entries.push(TableEntry { pop: "ORD".to_owned(), origin: us.duplicate() });
    entries.push(TableEntry { pop: "LOT".to_owned(), origin: us.duplicate() });
    entries.push(TableEntry { pop: "CHI".to_owned(), origin: us.duplicate() });
    entries.push(TableEntry { pop: "MDW".to_owned(), origin: us.duplicate() });
    entries.push(TableEntry { pop: "PWK".to_owned(), origin: us.duplicate() });
    entries.push(TableEntry { pop: "CMH".to_owned(), origin: us.duplicate() });
    entries.push(TableEntry { pop: "LCK".to_owned(), origin: us.duplicate() });
    entries.push(TableEntry { pop: "CPH".to_owned(), origin: eu.duplicate() });
    entries.push(TableEntry { pop: "CWB".to_owned(), origin: us.duplicate() });
    entries.push(TableEntry { pop: "DFW".to_owned(), origin: us.duplicate() });
    proof {
        assert(entries@.map_values(|e: TableEntry| e@) =~= old(entries)@.map_values(
            |e: TableEntry| e@,
        ) + standard_entries_a(eu@, us@));
    }
}
#[verifier::rlimit(60)]
fn push_entries_b(entries: &mut Vec<TableEntry>, eu: &Origin, us: &Origin)
    ensures
        final(entries)@.map_values(|e: TableEntry| e@) == old(entries)@.map_values(
            |e: TableEntry| e@,
        ) + standard_entries_b(eu@, us@),
{
    entries.push(TableEntry { pop: "DAL".to_owned(), origin: us.duplicate() });
    entries.push(TableEntry { pop: "DEL".to_owned(), origin: us.duplicate() });
    entries.push(TableEntry { pop: "DEN".to_owned(), origin: us.duplicate() });
    entries.push(TableEntry { pop: "DTW".to_owned(), origin: us.duplicate() });
    entries.push(TableEntry { pop: "DXB".to_owned(), origin: us.duplicate() });
    entries.push(TableEntry { pop: "DUB".to_owned(), origin: eu.duplicate() });
    entries.push(TableEntry { pop: "FOR".to_owned(), origin: us.duplicate() });
    entries.push(TableEntry { pop: "FRA".to_owned(), origin: eu.duplicate() });
    entries.push(TableEntry { pop: "HHN".to_owned(), origin: eu.duplicate() });
    entries.push(TableEntry { pop: "FJR".to_owned(), origin: us.duplicate() });
    entries.push(TableEntry { pop: "GNV".to_owned(), origin: us.duplicate() });
    entries.push(TableEntry { pop: "ACC".to_owned(), origin: eu.duplicate() });
    entries.push(TableEntry { pop: "HEL".to_owned(), origin: eu.duplicate() });
    entries.push(TableEntry { pop: "HKG".to_owned(), origin: us.duplicate() });
    entries.push(TableEntry { pop: "HNL".to_owned(), origin: us.duplicate() });
    entries.push(TableEntry { pop: "IAH".to_owned(), origin: us.duplicate() });
    entries.push(TableEntry { pop: "HYD".to_owned(), origin: us.duplicate() });
    entries.push(TableEntry { pop: "JAX".to_owned(), origin: us.duplicate() });
    entries.push(TableEntry { pop: "JNB".to_owned(), origin: eu.duplicate() });
    entries.push(TableEntry { pop: "MCI".to_owned(), origin: us.duplicate() });
    entries.push(TableEntry { pop: "CCU".to_owned(), origin: us.duplicate() });
    entries.push(TableEntry { pop: "KUL".to_owned(), origin: us.duplicate() });
    entries.push(TableEntry { pop: "LIM".to_owned(), origin: us.duplicate() });
    entries.push(TableEntry { pop: "LCY".to_owned(), origin: eu.duplicate() });
    entries.push(TableEntry { pop: "LHR".to_owned(), origin: eu.duplicate() });
    proof {
        assert(entries@.map_values(|e: TableEntry| e@) =~= old(entries)@.map_values(
            |e: TableEntry| e@,
        ) + standard_entries_b(eu@, us@));
    }
}
#[verifier::rlimit(60)]
fn push_entries_c(entries: &mut Vec<TableEntry>, eu: &Origin, us: &Origin)
    ensures
        final(entries)@.map_values(|e: TableEntry| e@) == old(entries)@.map_values(
            |e: TableEntry| e@,
        ) + standard_entries_c(eu@, us@),
{
    entries.push(TableEntry { pop: "LON".to_owned(), origin: eu.duplicate() });
    entries.push(TableEntry { pop: "LGB".to_owned(), origin: us.duplicate() });
    entries.push(TableEntry { pop: "SMO".to_owned(), origin: us.duplicate() });
    entries.push(TableEntry { pop: "BUR".to_owned(), origin: us.duplicate() });
    entries.push(TableEntry { pop: "MAD".to_owned(), origin: eu.duplicate() });
    entries.push(TableEntry { pop: "MAN".to_owned(), origin: eu.duplicate() });
    entries.push(TableEntry { pop: "MNL".to_owned(), origin: us.duplicate() });
    entries.push(TableEntry { pop: "MRS".to_owned(), origin: eu.duplicate() });
    entries.push(TableEntry { pop: "MEL".to_owned(), origin: us.duplicate() });
    entries.push(TableEntry { pop: "MIA".to_owned(), origin: us.duplicate() });
    entries.push(TableEntry { pop: "MXP".to_owned(), origin: eu.duplicate() });
    entries.push(TableEntry { pop: "LIN".to_owned(), origin: eu.duplicate() });
    entries.push(TableEntry { pop: "MSP".to_owned(), origin: us.duplicate() });
    entries.push(TableEntry { pop: "STP".to_owned(), origin: us.duplicate() });
    entries.push(TableEntry { pop: "YUL".to_owned(), origin: us.duplicate() });
    entries.push(TableEntry { pop: "BOM".to_owned(), origin: us.duplicate() });
    entries.push(TableEntry { pop: "MUC".to_owned(), origin: eu.duplicate() });
    entries.push(TableEntry { pop: "LGA".to_owned(), origin: us.duplicate() });
    entries.push(TableEntry { pop: "EWR".to_owned(), origin: us.duplicate() });
    entries.push(TableEntry { pop: "ITM".to_owned(), origin: us.duplicate() });
    entries.push(TableEntry { pop: "OSL".to_owned(), origin: eu.duplicate() });
    entries.push(TableEntry { pop: "PAO".to_owned(), origin: us.duplicate() });
    entries.push(TableEntry { pop: "CDG".to_owned(), origin: eu.duplicate() });
    entries.push(TableEntry { pop: "PER".to_owned(), origin: us.duplicate() });
    entries.push(TableEntry { pop: "PHX".to_owned(), origin: us.duplicate() });
    proof {
        assert(entries@.map_values(|e: TableEntry| e@) =~= old(entries)@.map_values(
            |e: TableEntry| e@,
        ) + standard_entries_c(eu@, us@));
    }
}
#[verifier::rlimit(60)]
fn push_entries_d(entries: &mut Vec<TableEntry>, eu: &Origin, us: &Origin)
    ensures
        final(entries)@.map_values(|e: TableEntry| e@) == old(entries)@.map_values(
            |e: TableEntry| e@,
        ) + standard_entries_d(eu@, us@),
{
    entries.push(TableEntry { pop: "PDX".to_owned(), origin: us.duplicate() });
    entries.push(TableEntry { pop: "GIG".to_owned(), origin: us.duplicate() });
    entries.push(TableEntry { pop: "FCO".to_owned(), origin: eu.duplicate() });
    entries.push(TableEntry { pop: "SJC".to_owned(), origin: us.duplicate() });
    entries.push(TableEntry { pop: "SCL".to_owned(), origin: us.duplicate() });
    entries.push(TableEntry { pop: "CGH".to_owned(), origin: us.duplicate() });
    entries.push(TableEntry { pop: "GRU".to_owned(), origin: us.duplicate() });
    entries.push(TableEntry { pop: "SEA".to_owned(), origin: us.duplicate() });
    entries.push(TableEntry { pop: "BFI".to_owned(), origin: us.duplicate() });
    entries.push(TableEntry { pop: "ICN".to_owned(), origin: us.duplicate() });
    entries.push(TableEntry { pop: "QPG".to_owned(), origin: us.duplicate() });
    entries.push(TableEntry { pop: "SOF".to_owned(), origin: eu.duplicate() });
    entries.push(TableEntry { pop: "STL".to_owned(), origin: us.duplicate() });
    entries.push(TableEntry { pop: "BMA".to_owned(), origin: eu.duplicate() });
    entries.push(TableEntry { pop: "SYD".to_owned(), origin: us.duplicate() });
    entries.push(TableEntry { pop: "TYO".to_owned(), origin: us.duplicate() });
    entries.push(TableEntry { pop: "HND".to_owned(), origin: us.duplicate() });
    entries.push(TableEntry { pop: "NRT".to_owned(), origin: us.duplicate() });
    entries.push(TableEntry { pop: "YYZ".to_owned(), origin: us.duplicate() });
    entries.push(TableEntry { pop: "YVR".to_owned(), origin: us.duplicate() });
    entries.push(TableEntry { pop: "VIE".to_owned(), origin: eu.duplicate() });
    entries.push(TableEntry { pop: "WLG".to_owned(), origin: us.duplicate() });
    proof {
        assert(entries@.map_values(|e: TableEntry| e@) =~= old(entries)@.map_values(
            |e: TableEntry| e@,
        ) + standard_entries_d(eu@, us@));
    }
}

/// Builds the standard routing table over the given EU and US origins.
pub fn standard_table(eu: &Origin, us: &Origin) -> (r: OriginTable)
    ensures
        r@ == standard_entries(eu@, us@),
{
    let mut entries: Vec<TableEntry> = Vec::new();
    proof {
        assert(entries@.map_values(|e: TableEntry| e@) =~= Seq::<TableEntryView>::empty());
    }
    push_entries_a(&mut entries, eu, us);
    push_entries_b(&mut entries, eu, us);
    push_entries_c(&mut entries, eu, us);
    push_entries_d(&mut entries, eu, us);
    let r = OriginTable { entries };
    proof {
        assert(r@ =~= standard_entries(eu@, us@));
    }
    r
}

/// The two origins handed to the builder both appear in the table, so
/// a fallback chosen among them is itself one of the table's origins.
pub proof fn lemma_standard_table_holds_both_origins(eu: OriginView, us: OriginView)
    ensures
        exists|i: int|
            0 <= i < standard_entries(eu, us).len() && standard_entries(eu, us)[i].origin == eu,
        exists|i: int|
            0 <= i < standard_entries(eu, us).len() && standard_entries(eu, us)[i].origin == us,
{
    assert(standard_entries(eu, us)[0].origin == eu);
    assert(standard_entries(eu, us)[1].origin == us);
}

} // verus!
