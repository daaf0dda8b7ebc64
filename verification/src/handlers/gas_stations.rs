//! Gas stations around a point, fetched from the sources that cover it.
use vstd::prelude::*;

verus! {

/// A source of station data, with its key where it needs one.
#[derive(Debug, PartialEq, Eq)]
pub enum StationSource {
    /// OpenStreetMap through Overpass, everywhere.
    Osm,
    /// NREL alternative fuel stations, in the United States.
    Nrel(String),
    /// Open Charge Map, everywhere.
    Ocm(String),
    /// Tankerkoenig, in Germany.
    Tankerkoenig(String),
}

/// The sources asked, in order, when the database holds no station near the
/// point: OpenStreetMap always; NREL inside the United States with a key;
/// Open Charge Map with a key; Tankerkoenig inside Germany with a key.
pub open spec fn sources_for(
    in_us: bool,
    in_germany: bool,
    nrel_key: Option<String>,
    ocm_key: Option<String>,
    tankerkoenig_key: Option<String>,
) -> Seq<StationSource> {
    let a = seq![StationSource::Osm];
    let b = match nrel_key {
        Some(k) => if in_us {
            a.push(StationSource::Nrel(k))
        } else {
            a
        },
        None => a,
    };
    let c = match ocm_key {
        Some(k) => b.push(StationSource::Ocm(k)),
        None => b,
    };
    match tankerkoenig_key {
        Some(k) => if in_germany {
            c.push(StationSource::Tankerkoenig(k))
        } else {
            c
        },
        None => c,
    }
}

/// The sources to ask for stations around a point; whether the point lies
/// in the United States or in Germany is decided by the caller.
pub fn plan_sources(
    in_us: bool,
    in_germany: bool,
    nrel_key: Option<String>,
    ocm_key: Option<String>,
    tankerkoenig_key: Option<String>,
) -> (r: Vec<StationSource>)
    ensures
        r@ == sources_for(in_us, in_germany, nrel_key, ocm_key, tankerkoenig_key),
        r@.len() > 0 && r@[0] == StationSource::Osm,
        ocm_key matches Some(k) ==> r@.contains(StationSource::Ocm(k)),
        nrel_key matches Some(k) ==> (r@.contains(StationSource::Nrel(k)) <==> in_us),
        tankerkoenig_key matches Some(k) ==> (r@.contains(StationSource::Tankerkoenig(k))
            <==> in_germany),
{
    proof {
        law_station_sources(in_us, in_germany, nrel_key, ocm_key, tankerkoenig_key);
    }
    let mut out: Vec<StationSource> = Vec::new();
    out.push(StationSource::Osm);
    match nrel_key {
        Some(k) => {
            if in_us {
                out.push(StationSource::Nrel(k));
            }
        },
        None => {},
    }
    match ocm_key {
        Some(k) => {
            out.push(StationSource::Ocm(k));
        },
        None => {},
    }
    match tankerkoenig_key {
        Some(k) => {
            if in_germany {
                out.push(StationSource::Tankerkoenig(k));
            }
        },
        None => {},
    }
    out
}

/// Whether a Tankerkoenig answer carries stations: only where its `ok` field
/// is `true`.
pub fn tankerkoenig_ok(ok: Option<bool>) -> (r: bool)
    ensures
        r == (ok == Some(true)),
{
    match ok {
        Some(b) => b,
        None => false,
    }
}

/// Which sources a search asks: OpenStreetMap always and first; NREL exactly
/// when the point is in the United States and an NREL key is set; Open Charge
/// Map exactly when its key is set, wherever the point is; Tankerkoenig
/// exactly when the point is in Germany and its key is set. Each is asked
/// with its own key, and at most once.
pub proof fn law_station_sources(
    in_us: bool,
    in_germany: bool,
    nrel_key: Option<String>,
    ocm_key: Option<String>,
    tankerkoenig_key: Option<String>,
)
    ensures
        ({
            let r = sources_for(in_us, in_germany, nrel_key, ocm_key, tankerkoenig_key);
            &&& r.len() > 0 && r[0] == StationSource::Osm
            &&& forall|k: String| r.contains(StationSource::Nrel(k)) <==> in_us && nrel_key == Some(k)
            &&& forall|k: String| r.contains(StationSource::Ocm(k)) <==> ocm_key == Some(k)
            &&& forall|k: String|
                r.contains(StationSource::Tankerkoenig(k)) <==> in_germany && tankerkoenig_key
                    == Some(k)
            &&& r.no_duplicates()
        }),
{
    let r = sources_for(in_us, in_germany, nrel_key, ocm_key, tankerkoenig_key);
    let a = seq![StationSource::Osm];
    let b = match nrel_key {
        Some(k) => if in_us { a.push(StationSource::Nrel(k)) } else { a },
        None => a,
    };
    let c = match ocm_key {
        Some(k) => b.push(StationSource::Ocm(k)),
        None => b,
    };
    assert(r == match tankerkoenig_key {
        Some(k) => if in_germany { c.push(StationSource::Tankerkoenig(k)) } else { c },
        None => c,
    });
    assert forall|k: String| r.contains(StationSource::Nrel(k)) <==> in_us && nrel_key == Some(k) by {
        if in_us && nrel_key == Some(k) {
            assert(r[1] == StationSource::Nrel(k));
        }
        if r.contains(StationSource::Nrel(k)) {
            let i = choose|i: int| 0 <= i < r.len() && r[i] == StationSource::Nrel(k);
        }
    }
    assert forall|k: String| r.contains(StationSource::Ocm(k)) <==> ocm_key == Some(k) by {
        if ocm_key == Some(k) {
            assert(r[c.len() - 1] == StationSource::Ocm(k));
        }
        if r.contains(StationSource::Ocm(k)) {
            let i = choose|i: int| 0 <= i < r.len() && r[i] == StationSource::Ocm(k);
        }
    }
    assert forall|k: String|
        r.contains(StationSource::Tankerkoenig(k)) <==> in_germany && tankerkoenig_key == Some(k) by {
        if in_germany && tankerkoenig_key == Some(k) {
            assert(r[r.len() - 1] == StationSource::Tankerkoenig(k));
        }
        if r.contains(StationSource::Tankerkoenig(k)) {
            let i = choose|i: int| 0 <= i < r.len() && r[i] == StationSource::Tankerkoenig(k);
        }
    }
}

} // verus!
