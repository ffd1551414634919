//! Disk and volume records of a node, and the storage view's modes.
use vstd::prelude::*;


verus! {

/// A physical disk of a node.
#[derive(Clone, Debug)]
pub struct DiskInfo {
    pub id: String,
    pub dev_path: String,
    pub model: Option<String>,
    pub serial: Option<String>,
    pub wwid: Option<String>,
    /// Size in bytes.
    pub size: u64,
    pub size_pretty: String,
    pub transport: Option<String>,
    pub rotational: bool,
    pub readonly: bool,
    pub cdrom: bool,
    pub bus_path: Option<String>,
}

/// Encryption and mount status of a volume.
#[derive(Clone, Debug)]
pub struct VolumeStatus {
    /// Volume id, such as "STATE" or "EPHEMERAL".
    pub id: String,
    pub encryption_provider: Option<String>,
    pub phase: String,
    pub size: String,
    pub filesystem: Option<String>,
    pub mount_location: Option<String>,
}

/// Machine-config identity of a node.
#[derive(Clone, Debug)]
pub struct MachineConfigInfo {
    /// Resource version, which changes whenever the config does.
    pub version: String,
    pub machine_type: Option<String>,
}

/// Which list the storage view shows.
#[derive(Clone, Copy, Debug, PartialEq, Eq, Default, Structural)]
pub enum StorageViewMode {
    #[default]
    Disks,
    Volumes,
}

impl StorageViewMode {
    /// The other list.
    pub fn next(&self) -> (r: StorageViewMode)
        ensures
            r == match *self {
                StorageViewMode::Disks => StorageViewMode::Volumes,
                StorageViewMode::Volumes => StorageViewMode::Disks,
            },
    {
        match self {
            StorageViewMode::Disks => StorageViewMode::Volumes,
            StorageViewMode::Volumes => StorageViewMode::Disks,
        }
    }

    /// "Disks" or "Volumes".
    pub fn label(&self) -> (r: &'static str)
        ensures
            r@ == match *self {
                StorageViewMode::Disks => "Disks"@,
                StorageViewMode::Volumes => "Volumes"@,
            },
    {
        match self {
            StorageViewMode::Disks => "Disks",
            StorageViewMode::Volumes => "Volumes",
        }
    }
}

/// How a group's storage is shown.
#[derive(Clone, Copy, Debug, PartialEq, Eq, Default, Structural)]
pub enum GroupViewMode {
    /// All nodes' storage together.
    #[default]
    Interleaved,
    /// One node at a time.
    ByNode,
}

/// One node's storage inside a group.
#[derive(Clone, Debug)]
pub struct NodeStorageData {
    pub hostname: String,
    pub disks: Vec<DiskInfo>,
    pub volumes: Vec<VolumeStatus>,
}

/// Loaded storage of a node.
#[derive(Clone, Debug, Default)]
pub struct StorageData {
    pub hostname: String,
    pub address: String,
    pub disks: Vec<DiskInfo>,
    pub volumes: Vec<VolumeStatus>,
}

/// `out` is disk `d` of node `host` as the merged list shows it: its device
/// path prefixed with "<host>:".
pub open spec fn disk_labelled(out: DiskInfo, host: Seq<char>, d: DiskInfo) -> bool {
    out.dev_path@ == host + ":"@ + d.dev_path@ && out == (DiskInfo { dev_path: out.dev_path, ..d })
}

/// `out` is volume `v` of node `host` as the merged list shows it: its id
/// prefixed with "<host>:".
pub open spec fn volume_labelled(out: VolumeStatus, host: Seq<char>, v: VolumeStatus) -> bool {
    out.id@ == host + ":"@ + v.id@ && out == (VolumeStatus { id: out.id, ..v })
}

/// `out` lists every node's disks, node by node, each labelled with its node.
pub open spec fn merged_disks(out: Seq<DiskInfo>, nodes: Seq<NodeStorageData>) -> bool
    decreases nodes.len(),
{
    if nodes.len() == 0 {
        out.len() == 0
    } else {
        let last = nodes.last();
        let n = last.disks@.len();
        &&& out.len() >= n
        &&& merged_disks(out.subrange(0, out.len() - n), nodes.drop_last())
        &&& forall|j: int|
            0 <= j < n ==> disk_labelled(#[trigger] out[out.len() - n + j], last.hostname@, last.disks@[j])
    }
}

/// `out` lists every node's volumes, node by node, each labelled with its node.
pub open spec fn merged_volumes(out: Seq<VolumeStatus>, nodes: Seq<NodeStorageData>) -> bool
    decreases nodes.len(),
{
    if nodes.len() == 0 {
        out.len() == 0
    } else {
        let last = nodes.last();
        let n = last.volumes@.len();
        &&& out.len() >= n
        &&& merged_volumes(out.subrange(0, out.len() - n), nodes.drop_last())
        &&& forall|j: int|
            0 <= j < n ==> volume_labelled(
                #[trigger] out[out.len() - n + j],
                last.hostname@,
                last.volumes@[j],
            )
    }
}

/// Position of the entry for `h`, if any (the last one, were there several).
pub open spec fn storage_pos(nodes: Seq<NodeStorageData>, h: Seq<char>) -> Option<int>
    decreases nodes.len(),
{
    if nodes.len() == 0 {
        None
    } else if nodes.last().hostname@ == h {
        Some(nodes.len() - 1)
    } else {
        storage_pos(nodes.drop_last(), h)
    }
}

/// `nodes` with the entry for `n`'s host replaced by `n`, or `n` appended.
pub open spec fn storage_upsert(nodes: Seq<NodeStorageData>, n: NodeStorageData) -> Seq<NodeStorageData> {
    match storage_pos(nodes, n.hostname@) {
        Some(i) => nodes.update(i, n),
        None => nodes.push(n),
    }
}

/// The part of an address before its first ':' (all of it when it has none).
pub open spec fn host_part(s: Seq<char>) -> Seq<char>
    decreases s.len(),
{
    if s.len() == 0 {
        s
    } else if s[0] == ':' {
        Seq::empty()
    } else {
        seq![s[0]] + host_part(s.subrange(1, s.len() as int))
    }
}

proof fn lemma_host_part_prefix(s: Seq<char>, i: int)
    requires
        0 <= i <= s.len(),
        forall|j: int| 0 <= j < i ==> s[j] != ':',
        i == s.len() || s[i] == ':',
    ensures
        host_part(s) == s.subrange(0, i),
    decreases s.len(),
{
    if s.len() > 0 && i > 0 {
        let rest = s.subrange(1, s.len() as int);
        assert forall|j: int| 0 <= j < i - 1 implies rest[j] != ':' by {
            assert(rest[j] == s[j + 1]);
        }
        if i < s.len() {
            assert(rest[i - 1] == s[i]);
        }
        lemma_host_part_prefix(rest, i - 1);
        assert(seq![s[0]] + rest.subrange(0, i - 1) =~= s.subrange(0, i));
    } else if s.len() > 0 {
        assert(s.subrange(0, 0) =~= Seq::<char>::empty());
    } else {
        assert(s.subrange(0, 0) =~= s);
    }
}

fn host_of(address: &str) -> (r: String)
    ensures
        r@ == host_part(address@),
{
    let n = address.unicode_len();
    let mut i: usize = 0;
    while i < n
        invariant
            n == address@.len(),
            i <= n,
            forall|j: int| 0 <= j < i ==> address@[j] != ':',
        ensures
            i <= n,
            i == n || address@[i as int] == ':',
            forall|j: int| 0 <= j < i ==> address@[j] != ':',
        decreases n - i,
    {
        if address.get_char(i) == ':' {
            break;
        }
        i = i + 1;
    }
    proof {
        lemma_host_part_prefix(address@, i as int);
    }
    String::from_str(address.substring_char(0, i))
}

fn find_storage(nodes: &Vec<NodeStorageData>, h: &String) -> (r: Option<usize>)
    ensures
        r is Some <==> storage_pos(nodes@, h@) is Some,
        r is Some ==> storage_pos(nodes@, h@) == Some(r->0 as int) && r->0 < nodes@.len(),
{
    let mut i = nodes.len();
    assert(nodes@.subrange(0, i as int) =~= nodes@);
    while i > 0
        invariant
            i <= nodes@.len(),
            storage_pos(nodes@, h@) == storage_pos(nodes@.subrange(0, i as int), h@),
        decreases i,
    {
        let j = i - 1;
        let ghost sub = nodes@.subrange(0, i as int);
        assert(sub.drop_last() =~= nodes@.subrange(0, j as int));
        assert(sub.last() == nodes@[j as int]);
        if nodes[j].hostname == *h {
            return Some(j);
        }
        i = j;
    }
    None
}

fn merge_disks(nodes: &Vec<NodeStorageData>) -> (r: Vec<DiskInfo>)
    ensures
        merged_disks(r@, nodes@),
{
    let mut out: Vec<DiskInfo> = Vec::new();
    let mut i: usize = 0;
    while i < nodes.len()
        invariant
            i <= nodes@.len(),
            merged_disks(out@, nodes@.subrange(0, i as int)),
        decreases nodes@.len() - i,
    {
        let node = &nodes[i];
        let ghost base = out@;
        let mut j: usize = 0;
        while j < node.disks.len()
            invariant
                j <= node.disks@.len(),
                out@.len() == base.len() + j,
                out@.subrange(0, base.len() as int) == base,
                forall|k: int|
                    0 <= k < j ==> disk_labelled(
                        #[trigger] out@[base.len() + k],
                        node.hostname@,
                        node.disks@[k],
                    ),
            decreases node.disks@.len() - j,
        {
            let d = &node.disks[j];
            let mut path = node.hostname.clone();
            path.append(":");
            path.append(d.dev_path.as_str());
            let labelled = DiskInfo {
                id: d.id.clone(),
                dev_path: path,
                model: crate::types::copy_text(&d.model),
                serial: crate::types::copy_text(&d.serial),
                wwid: crate::types::copy_text(&d.wwid),
                size: d.size,
                size_pretty: d.size_pretty.clone(),
                transport: crate::types::copy_text(&d.transport),
                rotational: d.rotational,
                readonly: d.readonly,
                cdrom: d.cdrom,
                bus_path: crate::types::copy_text(&d.bus_path),
            };
            let ghost before = out@;
            out.push(labelled);
            assert(out@.subrange(0, base.len() as int) =~= before.subrange(0, base.len() as int));
            j = j + 1;
        }
        let ghost next = nodes@.subrange(0, i + 1);
        assert(next.drop_last() =~= nodes@.subrange(0, i as int));
        assert(next.last() == nodes@[i as int]);
        assert forall|k: int| 0 <= k < node.disks@.len() implies disk_labelled(
            #[trigger] out@[out@.len() - node.disks@.len() + k],
            next.last().hostname@,
            next.last().disks@[k],
        ) by {
            assert(out@[base.len() + k] == out@[out@.len() - node.disks@.len() + k]);
        }
        i = i + 1;
    }
    assert(nodes@.subrange(0, nodes@.len() as int) =~= nodes@);
    out
}

fn merge_volumes(nodes: &Vec<NodeStorageData>) -> (r: Vec<VolumeStatus>)
    ensures
        merged_volumes(r@, nodes@),
{
    let mut out: Vec<VolumeStatus> = Vec::new();
    let mut i: usize = 0;
    while i < nodes.len()
        invariant
            i <= nodes@.len(),
            merged_volumes(out@, nodes@.subrange(0, i as int)),
        decreases nodes@.len() - i,
    {
        let node = &nodes[i];
        let ghost base = out@;
        let mut j: usize = 0;
        while j < node.volumes.len()
            invariant
                j <= node.volumes@.len(),
                out@.len() == base.len() + j,
                out@.subrange(0, base.len() as int) == base,
                forall|k: int|
                    0 <= k < j ==> volume_labelled(
                        #[trigger] out@[base.len() + k],
                        node.hostname@,
                        node.volumes@[k],
                    ),
            decreases node.volumes@.len() - j,
        {
            let v = &node.volumes[j];
            let mut id = node.hostname.clone();
            id.append(":");
            id.append(v.id.as_str());
            let labelled = VolumeStatus {
                id,
                encryption_provider: crate::types::copy_text(&v.encryption_provider),
                phase: v.phase.clone(),
                size: v.size.clone(),
                filesystem: crate::types::copy_text(&v.filesystem),
                mount_location: crate::types::copy_text(&v.mount_location),
            };
            let ghost before = out@;
            out.push(labelled);
            assert(out@.subrange(0, base.len() as int) =~= before.subrange(0, base.len() as int));
            j = j + 1;
        }
        let ghost next = nodes@.subrange(0, i + 1);
        assert(next.drop_last() =~= nodes@.subrange(0, i as int));
        assert(next.last() == nodes@[i as int]);
        assert forall|k: int| 0 <= k < node.volumes@.len() implies volume_labelled(
            #[trigger] out@[out@.len() - node.volumes@.len() + k],
            next.last().hostname@,
            next.last().volumes@[k],
        ) by {
            assert(out@[base.len() + k] == out@[out@.len() - node.volumes@.len() + k]);
        }
        i = i + 1;
    }
    assert(nodes@.subrange(0, nodes@.len() as int) =~= nodes@);
    out
}

/// Storage view of one node or of a group of nodes.
pub struct StorageComponent {
    /// Loaded (or, for a group, merged) storage.
    pub data: Option<StorageData>,
    pub loading: bool,
    pub error: Option<String>,
    pub view_mode: StorageViewMode,
    pub selected_disk: usize,
    pub selected_volume: usize,
    pub auto_refresh: bool,
    /// Address used for the command-line client: the node address without port.
    pub node_address: Option<String>,
    pub context: Option<String>,
    pub config_path: Option<String>,
    pub is_group_view: bool,
    pub group_name: String,
    /// The group's nodes as (hostname, address).
    pub nodes: Vec<(String, String)>,
    pub group_view_mode: GroupViewMode,
    /// Per-node storage, one entry per host name.
    pub node_data: Vec<NodeStorageData>,
    pub selected_node_tab: usize,
}

impl StorageComponent {
    /// The merged lists are rebuilt from the per-node storage.
    pub open spec fn group_merged(&self) -> bool {
        &&& self.data is Some
        &&& merged_disks(self.data->0.disks@, self.node_data@)
        &&& merged_volumes(self.data->0.volumes@, self.node_data@)
    }

    /// In a group's by-node view, the entry of the selected node (none when
    /// the tab is out of range or the node has no storage yet).
    pub open spec fn selected_node(&self) -> Option<NodeStorageData> {
        if self.selected_node_tab < self.nodes@.len() {
            match storage_pos(self.node_data@, self.nodes@[self.selected_node_tab as int].0@) {
                Some(i) => Some(self.node_data@[i]),
                None => None,
            }
        } else {
            None
        }
    }

    /// Whether the by-node view applies.
    pub open spec fn by_node(&self) -> bool {
        self.is_group_view && self.group_view_mode == GroupViewMode::ByNode
    }

    fn blank(data: StorageData) -> (r: StorageComponent)
        ensures
            r.data == Some(data),
            !r.loading && r.error is None,
            r.view_mode == StorageViewMode::Disks,
            r.selected_disk == 0 && r.selected_volume == 0,
            r.auto_refresh,
            r.node_address is None && r.context is None && r.config_path is None,
            !r.is_group_view,
            r.nodes@.len() == 0 && r.node_data@.len() == 0,
            r.group_view_mode == GroupViewMode::Interleaved,
            r.selected_node_tab == 0,
    {
        StorageComponent {
            data: Some(data),
            loading: false,
            error: None,
            view_mode: StorageViewMode::Disks,
            selected_disk: 0,
            selected_volume: 0,
            auto_refresh: true,
            node_address: None,
            context: None,
            config_path: None,
            is_group_view: false,
            group_name: String::new(),
            nodes: Vec::new(),
            group_view_mode: GroupViewMode::Interleaved,
            node_data: Vec::new(),
            selected_node_tab: 0,
        }
    }

    /// A view of one node; the client address is the node address up to
    /// its first ':' (none for an empty address).
    pub fn new(hostname: String, address: String, context: Option<String>, config_path: Option<String>) -> (r:
        StorageComponent)
        ensures
            !r.is_group_view,
            r.data is Some,
            r.data->0.hostname@ == hostname@,
            r.data->0.address@ == address@,
            r.data->0.disks@.len() == 0 && r.data->0.volumes@.len() == 0,
            address@.len() == 0 ==> r.node_address is None,
            address@.len() > 0 ==> r.node_address is Some && r.node_address->0@ == host_part(address@),
            r.context == context,
            r.config_path == config_path,
            r.view_mode == StorageViewMode::Disks,
            r.selected_disk == 0 && r.selected_volume == 0,
    {
        let node_address = if address.as_str().unicode_len() == 0 {
            None
        } else {
            Some(host_of(address.as_str()))
        };
        let data = StorageData { hostname, address, disks: Vec::new(), volumes: Vec::new() };
        let mut r = Self::blank(data);
        r.node_address = node_address;
        r.context = context;
        r.config_path = config_path;
        r
    }

    /// A view of a group of nodes, given as (hostname, address) pairs.
    pub fn new_group(group_name: String, nodes: Vec<(String, String)>) -> (r: StorageComponent)
        ensures
            r.is_group_view,
            r.group_name@ == group_name@,
            r.nodes@ == nodes@,
            r.node_data@.len() == 0,
            r.data is Some,
            r.data->0.hostname@ == group_name@,
            r.data->0.address@.len() == 0,
            r.data->0.disks@.len() == 0 && r.data->0.volumes@.len() == 0,
            r.group_view_mode == GroupViewMode::Interleaved,
            r.selected_node_tab == 0,
    {
        let data = StorageData {
            hostname: group_name.clone(),
            address: String::new(),
            disks: Vec::new(),
            volumes: Vec::new(),
        };
        let mut r = Self::blank(data);
        r.is_group_view = true;
        r.group_name = group_name;
        r.nodes = nodes;
        r
    }

    fn rebuild_group_data(&mut self)
        ensures
            final(self).group_merged(),
            *final(self) == (StorageComponent { data: final(self).data, ..*old(self) }),
            old(self).data is Some ==> final(self).data->0.hostname == old(self).data->0.hostname
                && final(self).data->0.address == old(self).data->0.address,
    {
        let mut data = match self.data.take() {
            Some(d) => d,
            None => StorageData {
                hostname: String::new(),
                address: String::new(),
                disks: Vec::new(),
                volumes: Vec::new(),
            },
        };
        data.disks = merge_disks(&self.node_data);
        data.volumes = merge_volumes(&self.node_data);
        self.data = Some(data);
    }

    /// Records one node's storage in a group view (replacing what that node
    /// had) and rebuilds the merged lists; a single-node view ignores it.
    pub fn add_node_storage(&mut self, hostname: String, disks: Vec<DiskInfo>, volumes: Vec<VolumeStatus>)
        ensures
            !old(self).is_group_view ==> *final(self) == *old(self),
            old(self).is_group_view ==> {
                &&& final(self).node_data@ == storage_upsert(
                    old(self).node_data@,
                    NodeStorageData { hostname, disks, volumes },
                )
                &&& final(self).group_merged()
                &&& *final(self) == (StorageComponent {
                    data: final(self).data,
                    node_data: final(self).node_data,
                    ..*old(self)
                })
            },
    {
        if !self.is_group_view {
            return;
        }
        let pos = find_storage(&self.node_data, &hostname);
        let entry = NodeStorageData { hostname, disks, volumes };
        match pos {
            Some(i) => {
                self.node_data.set(i, entry);
            },
            None => {
                self.node_data.push(entry);
            },
        }
        self.rebuild_group_data();
    }

    /// Replaces the loaded storage.
    pub fn set_data(&mut self, data: StorageData)
        ensures
            *final(self) == (StorageComponent { data: Some(data), ..*old(self) }),
    {
        self.data = Some(data);
    }

    /// Sets the authentication context and config path.
    pub fn set_context(&mut self, context: Option<String>, config_path: Option<String>)
        ensures
            *final(self) == (StorageComponent { context, config_path, ..*old(self) }),
    {
        self.context = context;
        self.config_path = config_path;
    }

    /// Records an error; the loaded storage stays.
    pub fn set_error(&mut self, error: String)
        ensures
            *final(self) == (StorageComponent { error: Some(error), loading: false, ..*old(self) }),
    {
        self.error = Some(error);
        self.loading = false;
    }

    /// The disks to show: in a group's by-node view the selected node's own
    /// disks (none when there is no such node data), otherwise the loaded
    /// (or merged) disks.
    pub fn get_display_disks(&self) -> (r: Option<&Vec<DiskInfo>>)
        ensures
            self.by_node() ==> match self.selected_node() {
                Some(n) => r is Some && r->0@ == n.disks@,
                None => r is None,
            },
            !self.by_node() ==> match self.data {
                Some(d) => r is Some && r->0@ == d.disks@,
                None => r is None,
            },
    {
        if self.is_group_view && self.group_view_mode == GroupViewMode::ByNode {
            if self.selected_node_tab < self.nodes.len() {
                match find_storage(&self.node_data, &self.nodes[self.selected_node_tab].0) {
                    Some(i) => Some(&self.node_data[i].disks),
                    None => None,
                }
            } else {
                None
            }
        } else {
            match &self.data {
                Some(d) => Some(&d.disks),
                None => None,
            }
        }
    }

    /// The volumes to show, chosen as for disks.
    pub fn get_display_volumes(&self) -> (r: Option<&Vec<VolumeStatus>>)
        ensures
            self.by_node() ==> match self.selected_node() {
                Some(n) => r is Some && r->0@ == n.volumes@,
                None => r is None,
            },
            !self.by_node() ==> match self.data {
                Some(d) => r is Some && r->0@ == d.volumes@,
                None => r is None,
            },
    {
        if self.is_group_view && self.group_view_mode == GroupViewMode::ByNode {
            if self.selected_node_tab < self.nodes.len() {
                match find_storage(&self.node_data, &self.nodes[self.selected_node_tab].0) {
                    Some(i) => Some(&self.node_data[i].volumes),
                    None => None,
                }
            } else {
                None
            }
        } else {
            match &self.data {
                Some(d) => Some(&d.volumes),
                None => None,
            }
        }
    }

    /// Moves the selection of the shown list up, wrapping to the last entry.
    pub fn select_prev(&mut self)
        ensures
            *final(self) == (StorageComponent {
                selected_disk: final(self).selected_disk,
                selected_volume: final(self).selected_volume,
                ..*old(self)
            }),
            final(self).selected_disk == if old(self).view_mode == StorageViewMode::Disks
                && old(self).data is Some && old(self).data->0.disks@.len() > 0 {
                wrap_prev(old(self).selected_disk as int, old(self).data->0.disks@.len() as int)
            } else {
                old(self).selected_disk as int
            },
            final(self).selected_volume == if old(self).view_mode == StorageViewMode::Volumes
                && old(self).data is Some && old(self).data->0.volumes@.len() > 0 {
                wrap_prev(old(self).selected_volume as int, old(self).data->0.volumes@.len() as int)
            } else {
                old(self).selected_volume as int
            },
    {
        let len = match &self.data {
            Some(d) => match self.view_mode {
                StorageViewMode::Disks => d.disks.len(),
                StorageViewMode::Volumes => d.volumes.len(),
            },
            None => 0,
        };
        if len > 0 {
            match self.view_mode {
                StorageViewMode::Disks => {
                    self.selected_disk = if self.selected_disk == 0 { len - 1 } else { self.selected_disk - 1 };
                },
                StorageViewMode::Volumes => {
                    self.selected_volume = if self.selected_volume == 0 {
                        len - 1
                    } else {
                        self.selected_volume - 1
                    };
                },
            }
        }
    }

    /// Moves the selection of the shown list down, wrapping to the first entry.
    pub fn select_next(&mut self)
        ensures
            *final(self) == (StorageComponent {
                selected_disk: final(self).selected_disk,
                selected_volume: final(self).selected_volume,
                ..*old(self)
            }),
            final(self).selected_disk == if old(self).view_mode == StorageViewMode::Disks
                && old(self).data is Some && old(self).data->0.disks@.len() > 0 {
                (old(self).selected_disk as int % old(self).data->0.disks@.len() as int + 1)
                    % old(self).data->0.disks@.len() as int
            } else {
                old(self).selected_disk as int
            },
            final(self).selected_volume == if old(self).view_mode == StorageViewMode::Volumes
                && old(self).data is Some && old(self).data->0.volumes@.len() > 0 {
                (old(self).selected_volume as int % old(self).data->0.volumes@.len() as int + 1)
                    % old(self).data->0.volumes@.len() as int
            } else {
                old(self).selected_volume as int
            },
    {
        let len = match &self.data {
            Some(d) => match self.view_mode {
                StorageViewMode::Disks => d.disks.len(),
                StorageViewMode::Volumes => d.volumes.len(),
            },
            None => 0,
        };
        if len > 0 {
            match self.view_mode {
                StorageViewMode::Disks => {
                    self.selected_disk = (self.selected_disk % len + 1) % len;
                },
                StorageViewMode::Volumes => {
                    self.selected_volume = (self.selected_volume % len + 1) % len;
                },
            }
        }
    }
}

/// The entry before `i` in a list of `len`, wrapping from the first to the last.
pub open spec fn wrap_prev(i: int, len: int) -> int {
    if i == 0 {
        len - 1
    } else {
        i - 1
    }
}

} // verus!
