use vstd::prelude::*;

verus! {

/// The schedule block of a trailer.
#[derive(Debug)]
pub struct TrailerSchedule {
    pub request_date: String,
    pub carrier_code: String,
    pub last_free_date: String,
    pub schedule_date: String,
    pub schedule_time: String,
    pub arrival_time: String,
    pub door_number: String,
    pub is_hot: bool,
}

/// One trailer, keyed by `trailer_id`.
#[derive(Debug)]
pub struct TrailerRecord {
    pub trailer_id: String,
    pub cisco_ids: Vec<String>,
    pub schedule: TrailerSchedule,
}

/// The signed-in user and the tokens the server handed out.
#[derive(Debug)]
pub struct User {
    pub username: String,
    pub role: String,
    pub token: String,
    pub refresh_token: String,
}

/// Some record in `s` has the id `id`.
pub open spec fn has_id(s: Seq<TrailerRecord>, id: Seq<char>) -> bool {
    exists|j: int| 0 <= j < s.len() && (#[trigger] s[j]).trailer_id@ == id
}

/// No two records of `s` share an id.
pub open spec fn ids_unique(s: Seq<TrailerRecord>) -> bool {
    forall|i: int, j: int|
        0 <= i < j < s.len() ==> (#[trigger] s[i]).trailer_id@ != (#[trigger] s[j]).trailer_id@
}

/// `s` with every record whose id repeats an earlier one left out; the order is kept.
pub open spec fn unique_by_id(s: Seq<TrailerRecord>) -> Seq<TrailerRecord>
    decreases s.len(),
{
    if s.len() == 0 {
        s
    } else {
        let p = unique_by_id(s.drop_last());
        if has_id(p, s.last().trailer_id@) {
            p
        } else {
            p.push(s.last())
        }
    }
}

/// `r` with its hot flag set to `hot`, everything else kept.
pub open spec fn with_hot(r: TrailerRecord, hot: bool) -> TrailerRecord {
    TrailerRecord { schedule: TrailerSchedule { is_hot: hot, ..r.schedule }, ..r }
}

/// `s` with the hot flag of each record whose id is `id` set to `hot`.
pub open spec fn hot_set_in(s: Seq<TrailerRecord>, id: Seq<char>, hot: bool) -> Seq<TrailerRecord> {
    s.map_values(|r: TrailerRecord| if r.trailer_id@ == id { with_hot(r, hot) } else { r })
}

/// Deduplicating by id leaves no two records with one id.
pub proof fn lemma_unique_by_id_is_unique(s: Seq<TrailerRecord>)
    ensures
        ids_unique(unique_by_id(s)),
    decreases s.len(),
{
    if s.len() > 0 {
        lemma_unique_by_id_is_unique(s.drop_last());
    }
}

/// Deduplicating by id loses no id: an id occurs in the result exactly when it occurs in `s`.
pub proof fn lemma_unique_by_id_keeps_ids(s: Seq<TrailerRecord>, id: Seq<char>)
    ensures
        has_id(unique_by_id(s), id) == has_id(s, id),
    decreases s.len(),
{
    if s.len() > 0 {
        let d = s.drop_last();
        let p = unique_by_id(d);
        lemma_unique_by_id_keeps_ids(d, id);
        lemma_unique_by_id_keeps_ids(d, s.last().trailer_id@);
        if has_id(s, id) && !has_id(d, id) {
            assert(s.last().trailer_id@ == id) by {
                let j = choose|j: int| 0 <= j < s.len() && (#[trigger] s[j]).trailer_id@ == id;
                if j < d.len() {
                    assert(d[j] == s[j]);
                }
            }
        }
        if has_id(d, id) {
            let j = choose|j: int| 0 <= j < d.len() && (#[trigger] d[j]).trailer_id@ == id;
            assert(s[j] == d[j]);
        }
        if !has_id(p, s.last().trailer_id@) {
            let q = p.push(s.last());
            assert(q[q.len() - 1] == s.last());
            if has_id(p, id) {
                let j = choose|j: int| 0 <= j < p.len() && (#[trigger] p[j]).trailer_id@ == id;
                assert(q[j] == p[j]);
            }
            if has_id(q, id) && !has_id(p, id) {
                let j = choose|j: int| 0 <= j < q.len() && (#[trigger] q[j]).trailer_id@ == id;
                if j < p.len() {
                    assert(q[j] == p[j]);
                }
            }
        }
    }
}

/// Setting the hot flag to a target is idempotent: doing it twice is doing it once.
pub proof fn lemma_hot_set_idempotent(s: Seq<TrailerRecord>, id: Seq<char>, hot: bool)
    ensures
        hot_set_in(hot_set_in(s, id, hot), id, hot) == hot_set_in(s, id, hot),
{
    assert(hot_set_in(hot_set_in(s, id, hot), id, hot) =~= hot_set_in(s, id, hot));
}

/// Setting the hot flag changes no id, so a collection with unique ids keeps them unique.
pub proof fn lemma_hot_set_keeps_ids(s: Seq<TrailerRecord>, id: Seq<char>, hot: bool)
    ensures
        hot_set_in(s, id, hot).len() == s.len(),
        forall|i: int| 0 <= i < s.len() ==> (#[trigger] hot_set_in(s, id, hot)[i]).trailer_id == s[i].trailer_id,
        ids_unique(s) ==> ids_unique(hot_set_in(s, id, hot)),
{
}

/// The short plant label of a site identifier, if it has one.
pub open spec fn site_label(site: Seq<char>) -> Option<Seq<char>> {
    if site == "18008"@ {
        Some("AR"@)
    } else if site == "18044"@ {
        Some("FF"@)
    } else if site == "22010"@ {
        Some("40"@)
    } else {
        None
    }
}

/// The labels of the sites in `sites` that have one, in order, separated by single spaces.
pub open spec fn plant_text(sites: Seq<Seq<char>>) -> Seq<char>
    decreases sites.len(),
{
    if sites.len() == 0 {
        Seq::empty()
    } else {
        let p = plant_text(sites.drop_last());
        match site_label(sites.last()) {
            None => p,
            Some(l) => if p.len() == 0 { l } else { p + " "@ + l },
        }
    }
}

/// The plant column of a trailer: the labels of its known sites, space separated.
pub fn render_locations(locations: &Vec<String>) -> (r: String)
    ensures
        r@ == plant_text(locations@.map_values(|l: String| l@)),
{
    let ghost sites = locations@.map_values(|l: String| l@);
    let ar = String::from_str("18008");
    let ff = String::from_str("18044");
    let forty = String::from_str("22010");
    let mut txt = String::new();
    let mut i: usize = 0;
    while i < locations.len()
        invariant
            i <= locations.len(),
            sites == locations@.map_values(|l: String| l@),
            ar@ == "18008"@,
            ff@ == "18044"@,
            forty@ == "22010"@,
            txt@ == plant_text(sites.take(i as int)),
        decreases locations.len() - i,
    {
        proof {
            reveal_strlit("AR");
            reveal_strlit("FF");
            reveal_strlit("40");
            reveal_strlit(" ");
            assert(sites.take(i + 1).drop_last() =~= sites.take(i as int));
        }
        let location = &locations[i];
        let label: Option<&str> = if *location == ar {
            Some("AR")
        } else if *location == ff {
            Some("FF")
        } else if *location == forty {
            Some("40")
        } else {
            None
        };
        if let Some(l) = label {
            if txt.as_str().unicode_len() > 0 {
                txt.append(" ");
            }
            txt.append(l);
        }
        i = i + 1;
    }
    assert(sites.take(locations.len() as int) =~= sites);
    txt
}

} // verus!
