//! What a module declares of itself, and the rules that read it.
use crate::text::{contains_text, same, text_option, texts};
use vstd::prelude::*;

verus! {

/// How a provider wants its calls delivered.
#[derive(Debug)]
pub enum Concurrency {
    /// The module schedules its own calls. A manifest that declares nothing
    /// means this.
    ModuleManaged,
    /// Any other lane, by its name.
    Lane(String),
}

/// The lane of a [`Concurrency`].
#[verifier::ext_equal]
pub enum ConcurrencyView {
    ModuleManaged,
    Lane(Seq<char>),
}

impl View for Concurrency {
    type V = ConcurrencyView;

    open spec fn view(&self) -> ConcurrencyView {
        match *self {
            Concurrency::ModuleManaged => ConcurrencyView::ModuleManaged,
            Concurrency::Lane(name) => ConcurrencyView::Lane(name@),
        }
    }
}

impl ConcurrencyView {
    /// The lane's name as it stands in a message.
    pub open spec fn name(self) -> Seq<char> {
        match self {
            ConcurrencyView::ModuleManaged => "ModuleManaged"@,
            ConcurrencyView::Lane(name) => name,
        }
    }
}

impl Concurrency {
    /// The lane's name as it stands in a message.
    pub fn name(&self) -> (r: &str)
        ensures
            r@ == self@.name(),
    {
        match self {
            Concurrency::ModuleManaged => "ModuleManaged",
            Concurrency::Lane(name) => name.as_str(),
        }
    }

    /// Whether two lanes are the same.
    pub fn same_as(&self, other: &Concurrency) -> (r: bool)
        ensures
            r == (self@ == other@),
    {
        match (self, other) {
            (Concurrency::ModuleManaged, Concurrency::ModuleManaged) => true,
            (Concurrency::Lane(a), Concurrency::Lane(b)) => same(a.as_str(), b.as_str()),
            _ => false,
        }
    }

    /// A copy.
    pub fn copied(&self) -> (r: Concurrency)
        ensures
            r@ == self@,
    {
        match self {
            Concurrency::ModuleManaged => Concurrency::ModuleManaged,
            Concurrency::Lane(name) => Concurrency::Lane(name.clone()),
        }
    }
}

/// A role that a module provides, as far as routing reads it.
#[derive(Debug)]
pub enum ProviderRole {
    ToolProvider { concurrency: Concurrency },
    PipelineStage,
    ManagementSurface { concurrency: Concurrency },
    InternalService { service_id: String },
}

/// A [`ProviderRole`] over characters.
#[verifier::ext_equal]
pub enum RoleView {
    ToolProvider { concurrency: ConcurrencyView },
    PipelineStage,
    ManagementSurface { concurrency: ConcurrencyView },
    InternalService { service_id: Seq<char> },
}

impl View for ProviderRole {
    type V = RoleView;

    open spec fn view(&self) -> RoleView {
        match *self {
            ProviderRole::ToolProvider { concurrency } => RoleView::ToolProvider {
                concurrency: concurrency@,
            },
            ProviderRole::PipelineStage => RoleView::PipelineStage,
            ProviderRole::ManagementSurface { concurrency } => RoleView::ManagementSurface {
                concurrency: concurrency@,
            },
            ProviderRole::InternalService { service_id } => RoleView::InternalService {
                service_id: service_id@,
            },
        }
    }
}

/// The roles over characters.
pub open spec fn role_views(roles: Seq<ProviderRole>) -> Seq<RoleView> {
    roles.map_values(|r: ProviderRole| r@)
}

/// Which of the four roles a role is.
#[derive(Clone, Copy, Debug, PartialEq, Eq, Structural)]
pub enum ProviderRoleKind {
    ToolProvider,
    PipelineStage,
    ManagementSurface,
    InternalService,
}

/// The kind of a role.
pub open spec fn kind_of(role: RoleView) -> ProviderRoleKind {
    match role {
        RoleView::ToolProvider { .. } => ProviderRoleKind::ToolProvider,
        RoleView::PipelineStage => ProviderRoleKind::PipelineStage,
        RoleView::ManagementSurface { .. } => ProviderRoleKind::ManagementSurface,
        RoleView::InternalService { .. } => ProviderRoleKind::InternalService,
    }
}

/// The kind of a role.
pub fn provider_role_kind(role: &ProviderRole) -> (r: ProviderRoleKind)
    ensures
        r == kind_of(role@),
{
    match role {
        ProviderRole::ToolProvider { .. } => ProviderRoleKind::ToolProvider,
        ProviderRole::PipelineStage => ProviderRoleKind::PipelineStage,
        ProviderRole::ManagementSurface { .. } => ProviderRoleKind::ManagementSurface,
        ProviderRole::InternalService { .. } => ProviderRoleKind::InternalService,
    }
}

/// Whether a requirement must be met or is merely used when met.
#[derive(Clone, Copy, Debug, PartialEq, Eq, Structural)]
pub enum CapabilityNeed {
    Required,
    Optional,
}

/// A capability that a module needs.
#[derive(Debug)]
pub struct CapabilityRequirement {
    pub capability: String,
    pub need: CapabilityNeed,
}

/// What a module claims, needs and refuses to reach.
#[derive(Debug)]
pub struct CapabilityDeclarations {
    pub provides: Vec<String>,
    pub requires: Vec<CapabilityRequirement>,
    pub must_never_reach: Vec<String>,
}

/// The requirements over characters.
pub open spec fn requirement_views(list: Seq<CapabilityRequirement>) -> Seq<
    (Seq<char>, CapabilityNeed),
> {
    list.map_values(|r: CapabilityRequirement| (r.capability@, r.need))
}

/// A [`CapabilityDeclarations`] over characters.
#[verifier::ext_equal]
pub struct CapabilitiesView {
    pub provides: Seq<Seq<char>>,
    pub needs: Seq<(Seq<char>, CapabilityNeed)>,
    pub must_never_reach: Seq<Seq<char>>,
}

impl View for CapabilityDeclarations {
    type V = CapabilitiesView;

    open spec fn view(&self) -> CapabilitiesView {
        CapabilitiesView {
            provides: texts(self.provides@),
            needs: requirement_views(self.requires@),
            must_never_reach: texts(self.must_never_reach@),
        }
    }
}

/// The declarations, where there are any.
pub open spec fn capabilities_view(c: Option<CapabilityDeclarations>) -> Option<CapabilitiesView> {
    match c {
        Some(c) => Some(c@),
        None => None,
    }
}

/// What a module sends of itself in its HELLO, as far as the daemon's rules read
/// it.
#[derive(Debug)]
pub struct ModuleManifest {
    pub module_id: String,
    pub module_version: String,
    pub protocol_ver: u8,
    pub provides: Vec<ProviderRole>,
    pub capabilities: Option<CapabilityDeclarations>,
}

/// A [`ModuleManifest`] over characters.
#[verifier::ext_equal]
pub struct ManifestView {
    pub module_id: Seq<char>,
    pub module_version: Seq<char>,
    pub protocol_ver: u8,
    pub provides: Seq<RoleView>,
    pub capabilities: Option<CapabilitiesView>,
}

impl View for ModuleManifest {
    type V = ManifestView;

    open spec fn view(&self) -> ManifestView {
        ManifestView {
            module_id: self.module_id@,
            module_version: self.module_version@,
            protocol_ver: self.protocol_ver,
            provides: role_views(self.provides@),
            capabilities: capabilities_view(self.capabilities),
        }
    }
}

/// The module, and where it names one the service, that a client wants to reach.
#[derive(Debug)]
pub enum RouteTarget {
    ToolProvider { module_id: String },
    ManagementSurface { module_id: String },
    InternalService { module_id: String, service_id: String },
}

/// A [`RouteTarget`] over characters.
#[verifier::ext_equal]
pub enum TargetView {
    ToolProvider { module_id: Seq<char> },
    ManagementSurface { module_id: Seq<char> },
    InternalService { module_id: Seq<char>, service_id: Seq<char> },
}

impl View for RouteTarget {
    type V = TargetView;

    open spec fn view(&self) -> TargetView {
        match *self {
            RouteTarget::ToolProvider { module_id } => TargetView::ToolProvider {
                module_id: module_id@,
            },
            RouteTarget::ManagementSurface { module_id } => TargetView::ManagementSurface {
                module_id: module_id@,
            },
            RouteTarget::InternalService { module_id, service_id } => TargetView::InternalService {
                module_id: module_id@,
                service_id: service_id@,
            },
        }
    }
}

impl TargetView {
    /// The module that the target names.
    pub open spec fn module_id(self) -> Seq<char> {
        match self {
            TargetView::ToolProvider { module_id } => module_id,
            TargetView::ManagementSurface { module_id } => module_id,
            TargetView::InternalService { module_id, .. } => module_id,
        }
    }

    /// Whether a role serves the target: one of the same kind, and for a service
    /// one of the same id.
    pub open spec fn served_by(self, role: RoleView) -> bool {
        match (self, role) {
            (TargetView::ToolProvider { .. }, RoleView::ToolProvider { .. }) => true,
            (TargetView::ManagementSurface { .. }, RoleView::ManagementSurface { .. }) => true,
            (
                TargetView::InternalService { service_id, .. },
                RoleView::InternalService { service_id: provided },
            ) => service_id == provided,
            _ => false,
        }
    }

    /// Whether one of the roles serves the target.
    pub open spec fn served_by_any(self, roles: Seq<RoleView>) -> bool {
        exists|i: int| 0 <= i < roles.len() && self.served_by(#[trigger] roles[i])
    }
}

/// The module that a target names.
pub fn target_module_id(target: &RouteTarget) -> (r: &str)
    ensures
        r@ == target@.module_id(),
{
    match target {
        RouteTarget::ToolProvider { module_id } => module_id.as_str(),
        RouteTarget::ManagementSurface { module_id } => module_id.as_str(),
        RouteTarget::InternalService { module_id, .. } => module_id.as_str(),
    }
}

fn role_serves(target: &RouteTarget, role: &ProviderRole) -> (r: bool)
    ensures
        r == target@.served_by(role@),
{
    match (target, role) {
        (RouteTarget::ToolProvider { .. }, ProviderRole::ToolProvider { .. }) => true,
        (RouteTarget::ManagementSurface { .. }, ProviderRole::ManagementSurface { .. }) => true,
        (
            RouteTarget::InternalService { service_id, .. },
            ProviderRole::InternalService { service_id: provided },
        ) => same(service_id.as_str(), provided.as_str()),
        _ => false,
    }
}

/// Whether one of the roles serves the target.
pub fn target_has_required_role(target: &RouteTarget, roles: &Vec<ProviderRole>) -> (r: bool)
    ensures
        r == target@.served_by_any(role_views(roles@)),
{
    let mut i: usize = 0;
    while i < roles.len()
        invariant
            i <= roles.len(),
            forall|j: int| 0 <= j < i ==> !target@.served_by(#[trigger] role_views(roles@)[j]),
        decreases roles.len() - i,
    {
        if role_serves(target, &roles[i]) {
            proof {
                assert(target@.served_by(role_views(roles@)[i as int]));
            }
            return true;
        }
        i += 1;
    }
    false
}

/// Every role but a pipeline stage can be the end of a route.
pub open spec fn routable(role: RoleView) -> bool {
    !(role is PipelineStage)
}

/// Whether a role can be the end of a route.
pub fn is_routable_role(role: &ProviderRole) -> (r: bool)
    ensures
        r == routable(role@),
{
    match role {
        ProviderRole::ToolProvider { .. } => true,
        ProviderRole::ManagementSurface { .. } => true,
        ProviderRole::InternalService { .. } => true,
        ProviderRole::PipelineStage => false,
    }
}

/// Whether a manifest provides a role that can be the end of a route.
pub fn manifest_provides_routable_role(manifest: &ModuleManifest) -> (r: bool)
    ensures
        r == exists|i: int|
            0 <= i < manifest@.provides.len() && routable(#[trigger] manifest@.provides[i]),
{
    let mut i: usize = 0;
    while i < manifest.provides.len()
        invariant
            i <= manifest.provides.len(),
            forall|j: int| 0 <= j < i ==> !routable(#[trigger] manifest@.provides[j]),
        decreases manifest.provides.len() - i,
    {
        if is_routable_role(&manifest.provides[i]) {
            proof {
                assert(routable(manifest@.provides[i as int]));
            }
            return true;
        }
        i += 1;
    }
    false
}

/// The lane of the first tool provider or management surface; the other roles
/// declare none. Without one the module manages itself.
pub open spec fn lane_of(roles: Seq<RoleView>) -> ConcurrencyView
    decreases roles.len(),
{
    if roles.len() == 0 {
        ConcurrencyView::ModuleManaged
    } else {
        match roles[0] {
            RoleView::ToolProvider { concurrency } => concurrency,
            RoleView::ManagementSurface { concurrency } => concurrency,
            _ => lane_of(roles.drop_first()),
        }
    }
}

fn roles_concurrency(roles: &Vec<ProviderRole>) -> (r: Concurrency)
    ensures
        r@ == lane_of(role_views(roles@)),
{
    let ghost all = role_views(roles@);
    let mut i: usize = 0;
    proof {
        assert(all.skip(0) =~= all);
    }
    while i < roles.len()
        invariant
            i <= roles.len(),
            all == role_views(roles@),
            lane_of(all) == lane_of(all.skip(i as int)),
        decreases roles.len() - i,
    {
        proof {
            assert(all.skip(i as int)[0] == roles@[i as int]@);
            assert(all.skip(i as int).drop_first() =~= all.skip(i + 1));
        }
        match &roles[i] {
            ProviderRole::ToolProvider { concurrency } => {
                return concurrency.copied();
            },
            ProviderRole::ManagementSurface { concurrency } => {
                return concurrency.copied();
            },
            _ => {},
        }
        i += 1;
    }
    Concurrency::ModuleManaged
}

/// The lane that the daemon delivers a module's calls on.
pub fn manifest_concurrency(manifest: &ModuleManifest) -> (r: Concurrency)
    ensures
        r@ == lane_of(manifest@.provides),
{
    roles_concurrency(&manifest.provides)
}

/// The kinds of the roles.
pub open spec fn role_kinds(roles: Seq<RoleView>) -> Set<ProviderRoleKind> {
    Set::new(|k: ProviderRoleKind| exists|i: int| 0 <= i < roles.len() && kind_of(#[trigger] roles[i]) == k)
}

/// A set of role kinds.
#[derive(Clone, Copy, Debug, PartialEq, Eq, Structural)]
pub struct RoleKindSet {
    pub tool_provider: bool,
    pub pipeline_stage: bool,
    pub management_surface: bool,
    pub internal_service: bool,
}

impl View for RoleKindSet {
    type V = Set<ProviderRoleKind>;

    open spec fn view(&self) -> Set<ProviderRoleKind> {
        Set::new(
            |k: ProviderRoleKind|
                match k {
                    ProviderRoleKind::ToolProvider => self.tool_provider,
                    ProviderRoleKind::PipelineStage => self.pipeline_stage,
                    ProviderRoleKind::ManagementSurface => self.management_surface,
                    ProviderRoleKind::InternalService => self.internal_service,
                },
        )
    }
}

/// The kinds of the roles.
pub fn provider_role_kind_set(roles: &Vec<ProviderRole>) -> (r: RoleKindSet)
    ensures
        r@ == role_kinds(role_views(roles@)),
{
    let mut set = RoleKindSet {
        tool_provider: false,
        pipeline_stage: false,
        management_surface: false,
        internal_service: false,
    };
    let mut i: usize = 0;
    while i < roles.len()
        invariant
            i <= roles.len(),
            set@ =~= role_kinds(role_views(roles@).take(i as int)),
        decreases roles.len() - i,
    {
        let ghost was = set;
        match provider_role_kind(&roles[i]) {
            ProviderRoleKind::ToolProvider => {
                set.tool_provider = true;
            },
            ProviderRoleKind::PipelineStage => {
                set.pipeline_stage = true;
            },
            ProviderRoleKind::ManagementSurface => {
                set.management_surface = true;
            },
            ProviderRoleKind::InternalService => {
                set.internal_service = true;
            },
        }
        proof {
            let seen = role_views(roles@).take(i as int);
            let next = role_views(roles@).take(i + 1);
            let kind = kind_of(roles@[i as int]@);
            assert(set@ =~= was@.insert(kind));
            assert(next[i as int] == roles@[i as int]@);
            assert forall|k: ProviderRoleKind| role_kinds(next).contains(k) == (role_kinds(seen).contains(k) || k == kind) by {
                if role_kinds(seen).contains(k) {
                    let j = choose|j: int| 0 <= j < seen.len() && kind_of(#[trigger] seen[j]) == k;
                    assert(next[j] == seen[j]);
                }
                if role_kinds(next).contains(k) {
                    let j = choose|j: int| 0 <= j < next.len() && kind_of(#[trigger] next[j]) == k;
                    if j < i {
                        assert(seen[j] == next[j]);
                    }
                }
            }
        }
        i += 1;
    }
    proof {
        assert(role_views(roles@).take(i as int) =~= role_views(roles@));
    }
    set
}

/// Why a catalog update may not replace the registered roles by `provides`, if
/// it may not: whether a module has roles at all, which kinds they are and the
/// lane they run on are fixed when it registers.
pub open spec fn frozen_field_message(
    module_id: Seq<char>,
    registered: Seq<RoleView>,
    provides: Seq<RoleView>,
) -> Option<Seq<char>> {
    if (registered.len() > 0) != (provides.len() > 0) {
        Some(
            "catalog.update cannot change module '"@ + module_id
                + "' between supervision-only and routable; routability is fixed at HELLO"@,
        )
    } else if role_kinds(registered) != role_kinds(provides) {
        Some(
            "catalog.update cannot change provider role kinds for module '"@ + module_id
                + "'; role kinds are fixed at HELLO"@,
        )
    } else if lane_of(provides) != lane_of(registered) {
        Some(
            "catalog.update cannot change module '"@ + module_id + "' concurrency from "@ + lane_of(
                registered,
            ).name() + " to "@ + lane_of(provides).name() + "; concurrency is fixed at HELLO"@,
        )
    } else {
        None
    }
}

/// Why a catalog update may not replace the registered roles, if it may not.
pub fn catalog_update_frozen_field_message(
    registered: &ModuleManifest,
    provides: &Vec<ProviderRole>,
) -> (r: Option<String>)
    ensures
        text_option(r) == frozen_field_message(
            registered@.module_id,
            registered@.provides,
            role_views(provides@),
        ),
{
    let old_has_provides: bool = registered.provides.len() > 0;
    let new_has_provides: bool = provides.len() > 0;
    if old_has_provides != new_has_provides {
        return Some(
            String::from_str("catalog.update cannot change module '").concat(
                registered.module_id.as_str(),
            ).concat(
                "' between supervision-only and routable; routability is fixed at HELLO",
            ),
        );
    }
    let old_kinds = provider_role_kind_set(&registered.provides);
    let new_kinds = provider_role_kind_set(provides);
    if old_kinds != new_kinds {
        proof {
            if old_kinds@ == new_kinds@ {
                assert(old_kinds@.contains(ProviderRoleKind::ToolProvider) == old_kinds.tool_provider);
                assert(old_kinds@.contains(ProviderRoleKind::PipelineStage) == old_kinds.pipeline_stage);
                assert(old_kinds@.contains(ProviderRoleKind::ManagementSurface) == old_kinds.management_surface);
                assert(old_kinds@.contains(ProviderRoleKind::InternalService) == old_kinds.internal_service);
                assert(new_kinds@.contains(ProviderRoleKind::ToolProvider) == new_kinds.tool_provider);
                assert(new_kinds@.contains(ProviderRoleKind::PipelineStage) == new_kinds.pipeline_stage);
                assert(new_kinds@.contains(ProviderRoleKind::ManagementSurface) == new_kinds.management_surface);
                assert(new_kinds@.contains(ProviderRoleKind::InternalService) == new_kinds.internal_service);
                assert(false);
            }
        }
        return Some(
            String::from_str("catalog.update cannot change provider role kinds for module '").concat(
                registered.module_id.as_str(),
            ).concat("'; role kinds are fixed at HELLO"),
        );
    }
    let old_lane = manifest_concurrency(registered);
    let new_lane = roles_concurrency(provides);
    if !new_lane.same_as(&old_lane) {
        return Some(
            String::from_str("catalog.update cannot change module '").concat(
                registered.module_id.as_str(),
            ).concat("' concurrency from ").concat(old_lane.name()).concat(" to ").concat(
                new_lane.name(),
            ).concat("; concurrency is fixed at HELLO"),
        );
    }
    None
}

/// The claims of a module, none where it declares nothing.
pub open spec fn claims(c: Option<CapabilitiesView>) -> Seq<Seq<char>> {
    match c {
        Some(c) => c.provides,
        None => Seq::empty(),
    }
}

/// The denials of a module, none where it declares nothing.
pub open spec fn denials(c: Option<CapabilitiesView>) -> Seq<Seq<char>> {
    match c {
        Some(c) => c.must_never_reach,
        None => Seq::empty(),
    }
}

/// Something in `new` is not in `old`.
pub open spec fn adds(old: Seq<Seq<char>>, new: Seq<Seq<char>>) -> bool {
    exists|i: int| 0 <= i < new.len() && !old.contains(#[trigger] new[i])
}

/// Whether a catalog change can make a live route forbidden: it adds a claim or a
/// denial.
pub open spec fn census_due(old: Option<CapabilitiesView>, new: Option<CapabilitiesView>) -> bool {
    adds(claims(old), claims(new)) || adds(denials(old), denials(new))
}

fn list_adds(old: Option<&Vec<String>>, new: &Vec<String>) -> (r: bool)
    ensures
        r == adds(
            match old {
                Some(old) => texts(old@),
                None => Seq::empty(),
            },
            texts(new@),
        ),
{
    let ghost before = match old {
        Some(old) => texts(old@),
        None => Seq::empty(),
    };
    let mut i: usize = 0;
    while i < new.len()
        invariant
            i <= new.len(),
            before == (match old {
                Some(old) => texts(old@),
                None => Seq::empty(),
            }),
            forall|j: int| 0 <= j < i ==> before.contains(#[trigger] texts(new@)[j]),
        decreases new.len() - i,
    {
        let known: bool = match old {
            Some(old) => contains_text(old, new[i].as_str()),
            None => false,
        };
        if !known {
            proof {
                assert(!before.contains(texts(new@)[i as int]));
            }
            return true;
        }
        proof {
            assert(before.contains(texts(new@)[i as int]));
        }
        i += 1;
    }
    false
}

/// Whether a catalog change can make a live route forbidden. Taking a claim away
/// never does.
pub fn capability_census_trigger(
    old: Option<&CapabilityDeclarations>,
    new: Option<&CapabilityDeclarations>,
) -> (r: bool)
    ensures
        r == census_due(
            match old {
                Some(c) => Some(c@),
                None => None,
            },
            match new {
                Some(c) => Some(c@),
                None => None,
            },
        ),
{
    let new = match new {
        Some(new) => new,
        None => {
            return false;
        },
    };
    match old {
        Some(old) => list_adds(Some(&old.provides), &new.provides) || list_adds(
            Some(&old.must_never_reach),
            &new.must_never_reach,
        ),
        None => list_adds(None, &new.provides) || list_adds(None, &new.must_never_reach),
    }
}

/// The first of the denials that is among the claims.
pub open spec fn first_denied(denied: Seq<Seq<char>>, claimed: Seq<Seq<char>>) -> Option<Seq<char>>
    decreases denied.len(),
{
    if denied.len() == 0 {
        None
    } else if claimed.contains(denied[0]) {
        Some(denied[0])
    } else {
        first_denied(denied.drop_first(), claimed)
    }
}

/// The first capability that the opener must never reach and the target claims.
#[verifier::loop_isolation(false)]
pub fn denied_capability(
    opening: Option<&CapabilityDeclarations>,
    target: Option<&CapabilityDeclarations>,
) -> (r: Option<String>)
    ensures
        text_option(r) == first_denied(
            match opening {
                Some(c) => c@.must_never_reach,
                None => Seq::empty(),
            },
            match target {
                Some(c) => c@.provides,
                None => Seq::empty(),
            },
        ),
{
    let (opening, target) = match (opening, target) {
        (Some(opening), Some(target)) => (opening, target),
        (Some(opening), None) => {
            proof {
                nothing_claimed_nothing_denied(opening@.must_never_reach);
            }
            return None;
        },
        _ => {
            return None;
        },
    };
    let denied = &opening.must_never_reach;
    let ghost all = texts(denied@);
    let ghost claimed = texts(target.provides@);
    let mut i: usize = 0;
    proof {
        assert(all.skip(0) =~= all);
    }
    while i < denied.len()
        invariant
            i <= denied.len(),
            all == texts(denied@),
            claimed == texts(target.provides@),
            first_denied(all, claimed) == first_denied(all.skip(i as int), claimed),
        decreases denied.len() - i,
    {
        proof {
            assert(all.skip(i as int)[0] == denied@[i as int]@);
            assert(all.skip(i as int).drop_first() =~= all.skip(i + 1));
        }
        if contains_text(&target.provides, denied[i].as_str()) {
            return Some(denied[i].clone());
        }
        i += 1;
    }
    None
}

proof fn nothing_claimed_nothing_denied(denied: Seq<Seq<char>>)
    ensures
        first_denied(denied, Seq::empty()) is None,
    decreases denied.len(),
{
    if denied.len() > 0 {
        nothing_claimed_nothing_denied(denied.drop_first());
    }
}

/// A denial is reported exactly where the two lists meet, and it is in both.
pub proof fn denied_iff_lists_meet(denied: Seq<Seq<char>>, claimed: Seq<Seq<char>>)
    ensures
        first_denied(denied, claimed) is Some <==> exists|i: int|
            0 <= i < denied.len() && claimed.contains(#[trigger] denied[i]),
        first_denied(denied, claimed) matches Some(c) ==> denied.contains(c) && claimed.contains(c),
    decreases denied.len(),
{
    if denied.len() > 0 {
        let rest = denied.drop_first();
        denied_iff_lists_meet(rest, claimed);
        if claimed.contains(denied[0]) {
            assert(denied.contains(denied[0]));
        } else {
            if first_denied(rest, claimed) is Some {
                let i = choose|i: int| 0 <= i < rest.len() && claimed.contains(#[trigger] rest[i]);
                assert(claimed.contains(denied[i + 1]));
                let c = first_denied(rest, claimed)->0;
                let k = choose|k: int| 0 <= k < rest.len() && rest[k] == c;
                assert(denied[k + 1] == c);
            }
            if exists|i: int| 0 <= i < denied.len() && claimed.contains(#[trigger] denied[i]) {
                let i = choose|i: int| 0 <= i < denied.len() && claimed.contains(#[trigger] denied[i]);
                assert(rest[i - 1] == denied[i]);
            }
        }
    }
}

/// A change that adds no claim and no denial to what one module declares makes
/// no pair of modules newly forbidden, in either direction. So it needs no
/// census of the live routes.
pub proof fn no_census_means_no_new_denial(
    old: Option<CapabilitiesView>,
    new: Option<CapabilitiesView>,
    peer: Option<CapabilitiesView>,
)
    requires
        !census_due(old, new),
    ensures
        first_denied(denials(new), claims(peer)) is Some ==> first_denied(
            denials(old),
            claims(peer),
        ) is Some,
        first_denied(denials(peer), claims(new)) is Some ==> first_denied(
            denials(peer),
            claims(old),
        ) is Some,
{
    denied_iff_lists_meet(denials(new), claims(peer));
    denied_iff_lists_meet(denials(old), claims(peer));
    denied_iff_lists_meet(denials(peer), claims(new));
    denied_iff_lists_meet(denials(peer), claims(old));
    if first_denied(denials(new), claims(peer)) is Some {
        let i = choose|i: int|
            0 <= i < denials(new).len() && claims(peer).contains(#[trigger] denials(new)[i]);
        let k = choose|k: int| 0 <= k < denials(old).len() && denials(old)[k] == denials(new)[i];
        assert(claims(peer).contains(denials(old)[k]));
    }
    if first_denied(denials(peer), claims(new)) is Some {
        let i = choose|i: int|
            0 <= i < denials(peer).len() && claims(new).contains(#[trigger] denials(peer)[i]);
        let c = denials(peer)[i];
        let k = choose|k: int| 0 <= k < claims(new).len() && claims(new)[k] == c;
        assert(claims(old).contains(claims(new)[k]));
        assert(claims(old).contains(denials(peer)[i]));
    }
}

/// Dropping claims and denials never calls for a census.
pub proof fn removal_needs_no_census(old: Option<CapabilitiesView>, new: Option<CapabilitiesView>)
    requires
        forall|c: Seq<char>| claims(new).contains(c) ==> claims(old).contains(c),
        forall|c: Seq<char>| denials(new).contains(c) ==> denials(old).contains(c),
    ensures
        !census_due(old, new),
{
    assert forall|i: int| 0 <= i < claims(new).len() implies claims(old).contains(
        #[trigger] claims(new)[i],
    ) by {
        assert(claims(new).contains(claims(new)[i]));
    }
    assert forall|i: int| 0 <= i < denials(new).len() implies denials(old).contains(
        #[trigger] denials(new)[i],
    ) by {
        assert(denials(new).contains(denials(new)[i]));
    }
}

} // verus!
