use vstd::prelude::*;

verus! {

/// A geographic position, each coordinate held as the IEEE-754 bit pattern of
/// the feed's 32-bit float, so that it is carried through without rounding.
#[derive(Clone, Copy, Debug, PartialEq, Eq, Structural)]
pub struct Position {
    pub latitude_bits: u32,
    pub longitude_bits: u32,
}

/// The trip that a vehicle is serving.
#[derive(Clone, Debug, PartialEq)]
pub struct TripDescriptor {
    pub route_id: Option<String>,
}

/// The real-time position update of one vehicle.
#[derive(Clone, Debug, PartialEq)]
pub struct VehiclePosition {
    pub trip: Option<TripDescriptor>,
    pub position: Option<Position>,
}

/// One update unit of a feed.
#[derive(Clone, Debug, PartialEq)]
pub struct FeedEntity {
    pub vehicle: Option<VehiclePosition>,
}

/// A decoded feed: the header's timestamp (seconds since the Unix epoch) and
/// the entities in feed order.
#[derive(Clone, Debug, PartialEq)]
pub struct FeedMessage {
    pub timestamp: Option<u64>,
    pub entities: Vec<FeedEntity>,
}

/// The simplified record of one vehicle: the route it serves and where it is.
#[derive(Clone, Debug, PartialEq)]
pub struct VehicleRecord {
    pub route: String,
    pub position: Position,
}

impl View for VehicleRecord {
    type V = (Seq<char>, Position);

    open spec fn view(&self) -> (Seq<char>, Position) {
        (self.route@, self.position)
    }
}

/// The record that an entity yields: present only when the vehicle, its trip,
/// the trip's route and the vehicle's position are all present.
pub open spec fn entity_record(e: FeedEntity) -> Option<(Seq<char>, Position)> {
    match e.vehicle {
        Some(v) => match (v.trip, v.position) {
            (Some(t), Some(p)) => match t.route_id {
                Some(r) => Some((r@, p)),
                None => None,
            },
            _ => None,
        },
        None => None,
    }
}

/// The records of a sequence of entities, in order, the entities that yield
/// none being skipped.
pub open spec fn feed_records(s: Seq<FeedEntity>) -> Seq<(Seq<char>, Position)>
    decreases s.len(),
{
    if s.len() == 0 {
        Seq::empty()
    } else {
        feed_records(s.drop_last()) + match entity_record(s.last()) {
            Some(x) => seq![x],
            None => Seq::empty(),
        }
    }
}

/// The views of a sequence of records.
pub open spec fn records_view(r: Seq<VehicleRecord>) -> Seq<(Seq<char>, Position)> {
    r.map_values(|x: VehicleRecord| x@)
}

impl Position {
    /// A position from the bit patterns of its latitude and longitude.
    pub fn from_bits(latitude_bits: u32, longitude_bits: u32) -> (r: Position)
        ensures
            r.latitude_bits == latitude_bits,
            r.longitude_bits == longitude_bits,
    {
        Position { latitude_bits, longitude_bits }
    }
}

/// Extracts the record of one entity; every link of the optional chain is
/// checked, and a missing one skips the entity.
pub fn get_dart_route(feed: &FeedEntity) -> (r: Option<VehicleRecord>)
    ensures
        r matches Some(v) ==> entity_record(*feed) == Some(v@),
        r is None ==> entity_record(*feed) is None,
        feed.vehicle is None ==> r is None,
        feed.vehicle matches Some(v) ==> (v.trip is None ==> r is None),
        feed.vehicle matches Some(v) ==> (v.trip matches Some(t) ==> (t.route_id is None
            ==> r is None)),
        feed.vehicle matches Some(v) ==> (v.position is None ==> r is None),
        feed.vehicle matches Some(v) ==> (v.trip matches Some(t) ==> (t.route_id matches Some(id)
            ==> (v.position matches Some(p) ==> (r matches Some(x) && x.route@ == id@
            && x.position == p)))),
{
    let vehicle = match &feed.vehicle {
        Some(vehicle) => vehicle,
        None => return None,
    };
    let trip = match &vehicle.trip {
        Some(trip) => trip,
        None => return None,
    };
    let route_id = match &trip.route_id {
        Some(route_id) => route_id,
        None => return None,
    };
    let position = match vehicle.position {
        Some(position) => position,
        None => return None,
    };
    Some(VehicleRecord { route: route_id.clone(), position })
}

/// The records of all entities, in feed order; entities with a missing field
/// are skipped.
pub fn collect_records(entities: &Vec<FeedEntity>) -> (r: Vec<VehicleRecord>)
    ensures
        records_view(r@) == feed_records(entities@),
{
    let mut out: Vec<VehicleRecord> = Vec::new();
    let mut i: usize = 0;
    while i < entities.len()
        invariant
            i <= entities@.len(),
            records_view(out@) == feed_records(entities@.subrange(0, i as int)),
        decreases entities@.len() - i,
    {
        let ghost prefix = entities@.subrange(0, i as int);
        let ghost next = entities@.subrange(0, i + 1);
        assert(next.drop_last() == prefix);
        assert(next.last() == entities@[i as int]);
        if let Some(record) = get_dart_route(&entities[i]) {
            out.push(record);
        }
        assert(records_view(out@) == feed_records(next));
        i = i + 1;
    }
    assert(entities@.subrange(0, entities@.len() as int) == entities@);
    out
}

} // verus!
