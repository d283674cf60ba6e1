use vstd::prelude::*;

use crate::query::{
    add_bool, add_num, add_num32, add_raw, add_str, add_text, bool_value, num32_value,
    num_value, query_add, str_value,
};
use crate::text::{decimal, encode_query_value};
use crate::utils::{
    base_url, fid_text, format_base_url, parse_address, parse_fid, read_address, FIDErrors,
    Location, ReplicationType, FID, TTL,
};

verus! {

/// Address of a master server.
pub struct Master {
    pub host: String,
    pub port: Option<u16>,
}

/// Failures of the master's operations.
#[derive(Debug, Clone, PartialEq, Eq)]
pub enum MasterErrors {
    /// The address is not `host:port`.
    WrongFormat,
    /// The master answered with another status than 200; holds the reply's body.
    InvalidRequest(String),
}

/// Options for the `assign_key` request
pub struct AssignKeyOptions {
    pub count: Option<u32>,
    pub collection: Option<String>,
    pub data_center: Option<String>,
    pub rack: Option<String>,
    pub data_node: Option<String>,
    pub replication: Option<ReplicationType>,
    pub ttl: Option<TTL>,
    /// If no matching volumes, pre-allocate this number of bytes on disk for new volumes.
    pub preallocate: Option<u64>,
    /// If no matching volumes, create specified number of new volumes.
    /// Default: master preallocateSize
    pub writable_volume_count: Option<u64>,
    /// If you have disks labelled, this must be supplied to specify the disk type to allocate on.
    /// Default: empty
    pub disk: Option<String>,
}

pub open spec fn replication_value(o: Option<ReplicationType>) -> Option<Seq<char>> {
    match o {
        Some(r) => Some(r.spec_text()),
        None => None,
    }
}

pub open spec fn ttl_value(o: Option<TTL>) -> Option<Seq<char>> {
    match o {
        Some(t) => Some(t.spec_text()),
        None => None,
    }
}

impl AssignKeyOptions {
    /// The options that are present, in declaration order, under their camelCase names.
    pub open spec fn spec_query(&self) -> Seq<char> {
        let q = query_add(Seq::empty(), "count"@, num32_value(self.count));
        let q = query_add(q, "collection"@, str_value(self.collection));
        let q = query_add(q, "dataCenter"@, str_value(self.data_center));
        let q = query_add(q, "rack"@, str_value(self.rack));
        let q = query_add(q, "dataNode"@, str_value(self.data_node));
        let q = query_add(q, "replication"@, replication_value(self.replication));
        let q = query_add(q, "ttl"@, ttl_value(self.ttl));
        let q = query_add(q, "preallocate"@, num_value(self.preallocate));
        let q = query_add(q, "writableVolumeCount"@, num_value(self.writable_volume_count));
        query_add(q, "disk"@, str_value(self.disk))
    }

    pub fn to_query(&self) -> (r: String)
        ensures
            r@ == self.spec_query(),
    {
        let mut q = String::new();
        add_num32(&mut q, "count", self.count);
        add_str(&mut q, "collection", &self.collection);
        add_str(&mut q, "dataCenter", &self.data_center);
        add_str(&mut q, "rack", &self.rack);
        add_str(&mut q, "dataNode", &self.data_node);
        if let Some(r) = &self.replication {
            let t = r.to_string();
            add_raw(&mut q, "replication", t.as_str());
        }
        if let Some(t) = &self.ttl {
            let t = t.to_string();
            add_raw(&mut q, "ttl", t.as_str());
        }
        add_num(&mut q, "preallocate", self.preallocate);
        add_num(&mut q, "writableVolumeCount", self.writable_volume_count);
        add_str(&mut q, "disk", &self.disk);
        q
    }
}

impl Default for AssignKeyOptions {
    fn default() -> (r: Self)
        ensures
            r.spec_query() == Seq::<char>::empty(),
    {
        AssignKeyOptions {
            count: None,
            collection: None,
            data_center: None,
            rack: None,
            data_node: None,
            replication: None,
            ttl: None,
            preallocate: None,
            writable_volume_count: None,
            disk: None,
        }
    }
}

/// Query of an assign request: empty without options.
pub open spec fn assign_query(o: Option<AssignKeyOptions>) -> Seq<char> {
    match o {
        Some(x) => x.spec_query(),
        None => Seq::empty(),
    }
}

/// Return type of the `assign_key` request
pub struct AssignKeyResponse {
    pub count: u64,
    pub fid: FID,
    pub location: Location,
}

impl AssignKeyResponse {
    /// Builds the reply of an assign request from its fields, reading the file id's text.
    pub fn from_parts(count: u64, fid: &str, public_url: String, url: String) -> (r: Result<
        AssignKeyResponse,
        FIDErrors,
    >)
        ensures
            match r {
                Ok(a) => {
                    &&& parse_fid(fid@) == Some(a.fid@)
                    &&& a.count == count
                    &&& a.location.public_url == public_url
                    &&& a.location.url == url
                },
                Err(e) => parse_fid(fid@) is None && e == FIDErrors::MalformedHandle,
            },
    {
        match FID::from_string(fid) {
            Ok(f) => Ok(AssignKeyResponse { count, fid: f, location: Location { public_url, url } }),
            Err(e) => Err(e),
        }
    }
}

/// Options for the `lookup_volume` request
pub struct LookupVolumeOptions {
    pub collection: Option<String>,
    pub file_id: Option<FID>,
    pub read: Option<bool>,
}

pub open spec fn fid_value(o: Option<FID>) -> Option<Seq<char>> {
    match o {
        Some(f) => Some(encode_query_value(fid_text(f@))),
        None => None,
    }
}

impl LookupVolumeOptions {
    /// The options that are present, after the query text `acc`.
    pub open spec fn spec_query_after(&self, acc: Seq<char>) -> Seq<char> {
        let q = query_add(acc, "collection"@, str_value(self.collection));
        let q = query_add(q, "fileId"@, fid_value(self.file_id));
        query_add(q, "read"@, bool_value(self.read))
    }

    /// Appends the options that are present to the query text `out`.
    pub fn push_query(&self, out: &mut String)
        ensures
            final(out)@ == self.spec_query_after(old(out)@),
    {
        add_str(out, "collection", &self.collection);
        if let Some(f) = &self.file_id {
            let t = f.to_string();
            add_text(out, "fileId", t.as_str());
        }
        add_bool(out, "read", self.read);
    }
}

impl Default for LookupVolumeOptions {
    fn default() -> (r: Self)
        ensures
            forall|acc: Seq<char>| r.spec_query_after(acc) == acc,
    {
        LookupVolumeOptions { collection: None, file_id: None, read: None }
    }
}

/// Query of a lookup request: the volume id, then the options that are present.
pub open spec fn lookup_query(volume_id: u32, o: Option<LookupVolumeOptions>) -> Seq<char> {
    let q = query_add(Seq::empty(), "volumeId"@, Some(decimal(volume_id as nat)));
    match o {
        Some(x) => x.spec_query_after(q),
        None => q,
    }
}

/// Return type of the `lookup_volume` request
pub struct LookupVolumeResponse {
    pub locations: Vec<Location>,
}

impl Master {
    pub open spec fn spec_base(&self) -> Seq<char> {
        base_url(self.host@, self.port)
    }

    pub fn to_string(&self) -> (r: String)
        ensures
            r@ == self.spec_base(),
    {
        format_base_url(&self.host, self.port)
    }

    /// Creates a master from a string
    ///
    /// # Example
    /// ```
    /// use rusty_weed::master::Master;
    ///
    /// let master = Master::from_str("1.1.1.1:9333").unwrap();
    /// ```
    pub fn from_str(s: &str) -> (r: Result<Master, MasterErrors>)
        ensures
            match r {
                Ok(m) => m.port is Some && parse_address(s@) == Some((m.host@, m.port->0)),
                Err(e) => parse_address(s@) is None && e == MasterErrors::WrongFormat,
            },
    {
        match read_address(s) {
            Some((host, port)) => Ok(Master { host, port: Some(port) }),
            None => Err(MasterErrors::WrongFormat),
        }
    }

    /// URL of the request that assigns a file id.
    pub fn assign_url(&self, options: &Option<AssignKeyOptions>) -> (r: String)
        ensures
            r@ == self.spec_base() + "/dir/assign?"@ + assign_query(*options),
    {
        let mut u = self.to_string();
        u.append("/dir/assign?");
        if let Some(o) = options {
            let q = o.to_query();
            u.append(q.as_str());
        }
        u
    }

    /// URL of the request that looks up the servers of the file id's volume.
    pub fn lookup_url(&self, fid: &FID, options: &Option<LookupVolumeOptions>) -> (r: String)
        ensures
            r@ == self.spec_base() + "/dir/lookup?"@ + lookup_query(fid.volume_id, *options),
    {
        let mut q = String::new();
        add_num32(&mut q, "volumeId", Some(fid.volume_id));
        if let Some(o) = options {
            o.push_query(&mut q);
        }
        let mut u = self.to_string();
        u.append("/dir/lookup?");
        u.append(q.as_str());
        u
    }

    /// Result of a master request from the reply's status and body: the body,
    /// which holds the answer, on 200; otherwise `InvalidRequest` with the body.
    pub fn check_reply(status: u16, body: String) -> (r: Result<String, MasterErrors>)
        ensures
            status == 200 ==> r == Ok::<String, MasterErrors>(body),
            status != 200 ==> r == Err::<String, MasterErrors>(MasterErrors::InvalidRequest(body)),
    {
        if status == 200 {
            Ok(body)
        } else {
            Err(MasterErrors::InvalidRequest(body))
        }
    }
}

} // verus!
