//! Security: where keys are kept, and the watch for threats.

use vstd::prelude::*;
use core::cmp::Ordering;
use vstd::std_specs::cmp::PartialOrdSpecImpl;
use crate::clock::now_timestamp;
use crate::privacy::{EncryptionManager, NONCE_BYTES, TAG_BYTES};
use crate::text::{contains, contains_text, decimal, decimal_text, join2, option_text, same_text};
use crate::types::order_of;

verus! {

/// How many bytes a retrieved key has.
pub const STORED_KEY_BYTES: usize = 32;

/// How grave a threat is. Ordered: Low < Medium < High < Critical.
#[derive(Clone, Copy, Debug, PartialEq, Eq, Structural, Hash)]
pub enum ThreatLevel {
    Low,
    Medium,
    High,
    Critical,
}

impl ThreatLevel {
    /// The place of a level in the order, from 0 for Low to 3 for Critical.
    pub open spec fn rank(self) -> int {
        match self {
            ThreatLevel::Low => 0,
            ThreatLevel::Medium => 1,
            ThreatLevel::High => 2,
            ThreatLevel::Critical => 3,
        }
    }

    /// The place of a level in the order.
    pub fn level(&self) -> (r: u8)
        ensures
            r == self.rank(),
    {
        match self {
            ThreatLevel::Low => 0,
            ThreatLevel::Medium => 1,
            ThreatLevel::High => 2,
            ThreatLevel::Critical => 3,
        }
    }
}

impl PartialOrd for ThreatLevel {
    fn partial_cmp(&self, other: &Self) -> (r: Option<Ordering>) {
        let a = self.level();
        let b = other.level();
        if a < b {
            Some(Ordering::Less)
        } else if a > b {
            Some(Ordering::Greater)
        } else {
            Some(Ordering::Equal)
        }
    }
}

impl PartialOrdSpecImpl for ThreatLevel {
    open spec fn obeys_partial_cmp_spec() -> bool {
        true
    }

    open spec fn partial_cmp_spec(&self, other: &Self) -> Option<Ordering> {
        Some(order_of(self.rank(), other.rank()))
    }
}

/// A threat that was detected.
#[derive(Debug)]
pub struct SecurityThreat {
    pub id: String,
    pub threat_type: String,
    pub level: ThreatLevel,
    pub description: String,
    pub detected_at: i64,
    pub resolved: bool,
}

/// What a threat holds.
pub struct SecurityThreatView {
    pub id: Seq<char>,
    pub threat_type: Seq<char>,
    pub level: ThreatLevel,
    pub description: Seq<char>,
    pub detected_at: i64,
    pub resolved: bool,
}

impl View for SecurityThreat {
    type V = SecurityThreatView;

    open spec fn view(&self) -> SecurityThreatView {
        SecurityThreatView {
            id: self.id@,
            threat_type: self.threat_type@,
            level: self.level,
            description: self.description@,
            detected_at: self.detected_at,
            resolved: self.resolved,
        }
    }
}

impl Clone for SecurityThreat {
    fn clone(&self) -> (r: Self)
        ensures
            r == *self,
    {
        SecurityThreat {
            id: self.id.clone(),
            threat_type: self.threat_type.clone(),
            level: self.level,
            description: self.description.clone(),
            detected_at: self.detected_at,
            resolved: self.resolved,
        }
    }
}

/// The handle that a new store starts with.
pub open spec fn initial_handle() -> Seq<char> {
    "tpm_handle_stub"@
}

/// The handle given to a key stored at `now`.
pub open spec fn handle_at(now: i64) -> Seq<char> {
    "tpm_"@ + decimal_text(now as int)
}

/// A store for keys that stands in for a hardware module: it keeps a handle,
/// not the key.
pub struct TPMKeyStorage {
    encryption_manager: EncryptionManager,
    key_handle: Option<String>,
}

impl TPMKeyStorage {
    /// The handle that is valid at present.
    pub closed spec fn handle(&self) -> Option<Seq<char>> {
        option_text(self.key_handle)
    }

    /// A store with the initial handle; fails where encryption cannot be set
    /// up.
    pub fn new() -> (r: Result<Self, String>)
        ensures
            match r {
                Ok(store) => store.handle() == Some(initial_handle()),
                Err(e) => e@ == "Failed to init sodiumoxide: ()"@,
            },
    {
        match EncryptionManager::new() {
            Ok(encryption_manager) => Ok(
                TPMKeyStorage {
                    encryption_manager,
                    key_handle: Some("tpm_handle_stub".to_string()),
                },
            ),
            Err(e) => Err(e),
        }
    }

    /// Stores a key as if the clock read `now`.
    pub fn store_key_at(&mut self, key_data: &[u8], now: i64) -> (r: Result<String, String>)
        requires
            key_data@.len() + NONCE_BYTES + TAG_BYTES <= usize::MAX,
        ensures
            r matches Ok(handle) && handle@ == handle_at(now),
            final(self).handle() == Some(handle_at(now)),
    {
        match self.encryption_manager.encrypt(key_data) {
            Ok(_) => {
                let handle = join2("tpm_", decimal(now).as_str());
                self.key_handle = Some(handle.clone());
                Ok(handle)
            },
            Err(e) => Err(e),
        }
    }

    /// Encrypts the key, forgets the result, and makes a new handle of the
    /// time the clock reads. The new handle takes the place of the old one.
    pub fn store_key(&mut self, key_data: &[u8]) -> (r: Result<String, String>)
        requires
            key_data@.len() + NONCE_BYTES + TAG_BYTES <= usize::MAX,
        ensures
            exists|now: i64|
                (r matches Ok(handle) && handle@ == #[trigger] handle_at(now)) && final(self).handle()
                    == Some(handle_at(now)),
    {
        let now = now_timestamp();
        self.store_key_at(key_data, now)
    }

    /// The key behind `handle`: thirty-two zero bytes for the handle that is
    /// valid, a failure for any other.
    pub fn retrieve_key(&self, handle: &str) -> (r: Result<Vec<u8>, String>)
        ensures
            match r {
                Ok(key) => self.handle() == Some(handle@) && key@ == Seq::new(
                    STORED_KEY_BYTES as nat,
                    |i: int| 0u8,
                ),
                Err(e) => self.handle() != Some(handle@) && e@ == "Invalid key handle"@,
            },
    {
        let valid = match &self.key_handle {
            Some(current) => same_text(handle, current.as_str()),
            None => false,
        };
        if valid {
            let mut key: Vec<u8> = Vec::new();
            let mut i: usize = 0;
            while i < STORED_KEY_BYTES
                invariant
                    i <= STORED_KEY_BYTES,
                    key@ == Seq::new(i as nat, |k: int| 0u8),
                decreases STORED_KEY_BYTES - i,
            {
                key.push(0);
                assert(key@ =~= Seq::new((i + 1) as nat, |k: int| 0u8));
                i += 1;
            }
            Ok(key)
        } else {
            Err("Invalid key handle".to_string())
        }
    }
}

/// What each threat in `threats` holds.
pub open spec fn threat_views(threats: Seq<SecurityThreat>) -> Seq<SecurityThreatView> {
    Seq::new(threats.len(), |i: int| threats[i]@)
}

/// The threat detected at `now`.
pub open spec fn detected_threat(
    threat_type: Seq<char>,
    level: ThreatLevel,
    description: Seq<char>,
    now: i64,
) -> SecurityThreatView {
    SecurityThreatView {
        id: "threat_"@ + decimal_text(now as int),
        threat_type,
        level,
        description,
        detected_at: now,
        resolved: false,
    }
}

/// The first place at or behind `from` whose threat has the id given; the
/// length of the list where there is none.
pub open spec fn first_with_id(threats: Seq<SecurityThreatView>, id: Seq<char>, from: int) -> int
    decreases threats.len() - from,
{
    if from < 0 || from >= threats.len() {
        threats.len() as int
    } else if threats[from].id == id {
        from
    } else {
        first_with_id(threats, id, from + 1)
    }
}

/// The unresolved ones of the first `n` threats, in their order.
pub open spec fn active_upto(threats: Seq<SecurityThreatView>, n: int) -> Seq<SecurityThreatView>
    decreases n,
{
    if n <= 0 {
        Seq::empty()
    } else if !threats[n - 1].resolved {
        active_upto(threats, n - 1).push(threats[n - 1])
    } else {
        active_upto(threats, n - 1)
    }
}

/// Whether an activity looks suspicious: it speaks of something unauthorized
/// or of a breach.
pub open spec fn suspicious(activity: Seq<char>) -> bool {
    contains_text(activity, "unauthorized"@) || contains_text(activity, "breach"@)
}

/// Keeps the threats that were detected.
pub struct ThreatMonitor {
    threats: Vec<SecurityThreat>,
    monitoring_active: bool,
}

impl View for ThreatMonitor {
    type V = Seq<SecurityThreatView>;

    closed spec fn view(&self) -> Seq<SecurityThreatView> {
        threat_views(self.threats@)
    }
}

impl ThreatMonitor {
    /// Whether activity is being watched.
    pub closed spec fn watching(&self) -> bool {
        self.monitoring_active
    }

    /// A monitor that watches and has detected nothing.
    pub fn new() -> (r: Self)
        ensures
            r@ == Seq::<SecurityThreatView>::empty(),
            r.watching(),
    {
        let r = ThreatMonitor { threats: Vec::new(), monitoring_active: true };
        assert(r@ =~= Seq::<SecurityThreatView>::empty());
        r
    }

    /// How many threats were detected.
    pub fn threat_count(&self) -> (n: usize)
        ensures
            n == self@.len(),
    {
        self.threats.len()
    }

    /// Whether activity is being watched.
    pub fn is_monitoring(&self) -> (r: bool)
        ensures
            r == self.watching(),
    {
        self.monitoring_active
    }

    /// Notes a threat as if the clock read `now`.
    pub fn detect_threat_at(
        &mut self,
        threat_type: String,
        level: ThreatLevel,
        description: String,
        now: i64,
    )
        ensures
            final(self)@ == old(self)@.push(
                detected_threat(threat_type@, level, description@, now),
            ),
            final(self).watching() == old(self).watching(),
    {
        let threat = SecurityThreat {
            id: join2("threat_", decimal(now).as_str()),
            threat_type,
            level,
            description,
            detected_at: now,
            resolved: false,
        };
        let ghost before = self@;
        self.threats.push(threat);
        assert(self@ =~= before.push(threat@));
    }

    /// Notes a threat, unresolved, with an id made of the time the clock
    /// reads.
    pub fn detect_threat(&mut self, threat_type: String, level: ThreatLevel, description: String)
        ensures
            exists|now: i64|
                final(self)@ == old(self)@.push(
                    #[trigger] detected_threat(threat_type@, level, description@, now),
                ),
            final(self).watching() == old(self).watching(),
    {
        let now = now_timestamp();
        self.detect_threat_at(threat_type, level, description, now);
    }

    /// The threats that are not resolved, oldest first.
    pub fn get_active_threats(&self) -> (r: Vec<&SecurityThreat>)
        ensures
            r@.len() == active_upto(self@, self@.len() as int).len(),
            forall|i: int|
                0 <= i < r@.len() ==> (#[trigger] r@[i])@ == active_upto(self@, self@.len() as int)[i],
    {
        let mut r: Vec<&SecurityThreat> = Vec::new();
        let mut i: usize = 0;
        while i < self.threats.len()
            invariant
                i <= self.threats.len(),
                r@.len() == active_upto(self@, i as int).len(),
                forall|j: int| 0 <= j < r@.len() ==> (#[trigger] r@[j])@ == active_upto(self@, i as int)[j],
            decreases self.threats.len() - i,
        {
            assert(self@[i as int] == self.threats@[i as int]@);
            if !self.threats[i].resolved {
                r.push(&self.threats[i]);
            }
            i += 1;
        }
        r
    }

    /// Marks the oldest threat with the id `threat_id` as resolved; fails
    /// where there is none.
    pub fn resolve_threat(&mut self, threat_id: &str) -> (r: Result<(), String>)
        ensures
            final(self).watching() == old(self).watching(),
            ({
                let at = first_with_id(old(self)@, threat_id@, 0);
                if at < old(self)@.len() {
                    &&& r is Ok
                    &&& final(self)@ == old(self)@.update(
                        at,
                        SecurityThreatView { resolved: true, ..old(self)@[at] },
                    )
                } else {
                    &&& r matches Err(e) && e@ == "Threat not found"@
                    &&& final(self)@ == old(self)@
                }
            }),
    {
        let mut i: usize = 0;
        while i < self.threats.len()
            invariant
                i <= self.threats.len(),
                self.threats == old(self).threats,
                self.monitoring_active == old(self).monitoring_active,
                first_with_id(self@, threat_id@, 0) == first_with_id(self@, threat_id@, i as int),
            decreases self.threats.len() - i,
        {
            assert(self@[i as int] == self.threats@[i as int]@);
            if same_text(self.threats[i].id.as_str(), threat_id) {
                let mut resolved = self.threats[i].clone();
                resolved.resolved = true;
                let ghost before = self@;
                self.threats.set(i, resolved);
                assert(self@ =~= before.update(i as int, resolved@));
                return Ok(());
            }
            i += 1;
        }
        Err("Threat not found".to_string())
    }

    /// Looks at an activity as if the clock read `now`.
    pub fn monitor_activity_at(&mut self, activity: &str, now: i64)
        ensures
            final(self).watching() == old(self).watching(),
            final(self)@ == if old(self).watching() && suspicious(activity@) {
                old(self)@.push(
                    detected_threat(
                        "suspicious_activity"@,
                        ThreatLevel::Medium,
                        "Suspicious activity detected: "@ + activity@,
                        now,
                    ),
                )
            } else {
                old(self)@
            },
    {
        if self.monitoring_active {
            if contains(activity, "unauthorized") || contains(activity, "breach") {
                self.detect_threat_at(
                    "suspicious_activity".to_string(),
                    ThreatLevel::Medium,
                    join2("Suspicious activity detected: ", activity),
                    now,
                );
            }
        }
    }

    /// Looks at an activity: where the monitor watches and the activity
    /// speaks of something unauthorized or of a breach, a threat of medium
    /// level is noted.
    pub fn monitor_activity(&mut self, activity: &str)
        ensures
            final(self).watching() == old(self).watching(),
            !(old(self).watching() && suspicious(activity@)) ==> final(self)@ == old(self)@,
            old(self).watching() && suspicious(activity@) ==> exists|now: i64|
                final(self)@ == old(self)@.push(
                    #[trigger] detected_threat(
                        "suspicious_activity"@,
                        ThreatLevel::Medium,
                        "Suspicious activity detected: "@ + activity@,
                        now,
                    ),
                ),
    {
        let now = now_timestamp();
        self.monitor_activity_at(activity, now);
    }
}

impl Default for ThreatMonitor {
    fn default() -> (r: Self)
        ensures
            r@ == Seq::<SecurityThreatView>::empty(),
            r.watching(),
    {
        ThreatMonitor::new()
    }
}

} // verus!
