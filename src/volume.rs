use vstd::prelude::*;

use crate::query::{add_bool, add_num, add_num32, add_raw, bool_value, num32_value, num_value, query_add};
use crate::text::{lossy_text, text_of_bytes};
use crate::utils::{base_url, fid_text, format_base_url, parse_address, read_address, FID};

verus! {

/// Address of a volume server.
pub struct Volume {
    pub host: String,
    pub port: Option<u16>,
}

/// Failures of the volume server's operations.
#[derive(Debug, Clone, PartialEq, Eq)]
pub enum VolumeErrors {
    /// The address is not `host:port`.
    WrongFormat,
    /// A store was answered with another status than 201; holds the reply's body.
    NotCreated(String),
    /// A delete was answered with another status than 202; holds the reply's body.
    NotAccepted(String),
    /// A fetch was answered with another status than 200; holds the reply's body.
    InvalidRequest(String),
    /// A fetch of the bytes was answered with 404.
    FileNotFound,
}

/// Resize modes of an image fetch
#[derive(Debug, Clone, Copy, PartialEq, Eq, Structural)]
pub enum GetFileModes {
    Fit,
    Fill,
}

pub open spec fn mode_text(m: GetFileModes) -> Seq<char> {
    match m {
        GetFileModes::Fit => seq!['f', 'i', 't'],
        GetFileModes::Fill => seq!['f', 'i', 'l', 'l'],
    }
}

impl GetFileModes {
    /// The mode as it is written in a query: `fit` or `fill`.
    pub fn to_string(&self) -> (r: String)
        ensures
            r@ == mode_text(*self),
    {
        proof {
            reveal_strlit("fit");
            reveal_strlit("fill");
        }
        let mut s = String::new();
        match self {
            GetFileModes::Fit => s.append("fit"),
            GetFileModes::Fill => s.append("fill"),
        }
        s
    }
}

pub open spec fn mode_value(o: Option<GetFileModes>) -> Option<Seq<char>> {
    match o {
        Some(m) => Some(mode_text(m)),
        None => None,
    }
}

/// Options for the volume functions `get_file_response` and `get_file_bytes`
pub struct GetFileOptions {
    pub read_deleted: Option<bool>,
    pub width: Option<u32>,
    pub height: Option<u32>,
    pub mode: Option<GetFileModes>,
    pub crop_x1: Option<u32>,
    pub crop_x2: Option<u32>,
    pub crop_y1: Option<u32>,
    pub crop_y2: Option<u32>,
}

impl GetFileOptions {
    /// The options that are present, in declaration order.
    pub open spec fn spec_query(&self) -> Seq<char> {
        let q = query_add(Seq::empty(), "readDeleted"@, bool_value(self.read_deleted));
        let q = query_add(q, "width"@, num32_value(self.width));
        let q = query_add(q, "height"@, num32_value(self.height));
        let q = query_add(q, "mode"@, mode_value(self.mode));
        let q = query_add(q, "crop_x1"@, num32_value(self.crop_x1));
        let q = query_add(q, "crop_x2"@, num32_value(self.crop_x2));
        let q = query_add(q, "crop_y1"@, num32_value(self.crop_y1));
        query_add(q, "crop_y2"@, num32_value(self.crop_y2))
    }

    pub fn to_query(&self) -> (r: String)
        ensures
            r@ == self.spec_query(),
    {
        let mut q = String::new();
        add_bool(&mut q, "readDeleted", self.read_deleted);
        add_num32(&mut q, "width", self.width);
        add_num32(&mut q, "height", self.height);
        if let Some(m) = &self.mode {
            let t = m.to_string();
            add_raw(&mut q, "mode", t.as_str());
        }
        add_num32(&mut q, "crop_x1", self.crop_x1);
        add_num32(&mut q, "crop_x2", self.crop_x2);
        add_num32(&mut q, "crop_y1", self.crop_y1);
        add_num32(&mut q, "crop_y2", self.crop_y2);
        q
    }
}

impl Default for GetFileOptions {
    fn default() -> (r: Self)
        ensures
            r.spec_query() == Seq::<char>::empty(),
    {
        GetFileOptions {
            read_deleted: None,
            width: None,
            height: None,
            mode: None,
            crop_x1: None,
            crop_x2: None,
            crop_y1: None,
            crop_y2: None,
        }
    }
}

pub open spec fn get_query(o: Option<GetFileOptions>) -> Seq<char> {
    match o {
        Some(x) => x.spec_query(),
        None => Seq::empty(),
    }
}

/// Options for the volume function `upload_file_bytes`
pub struct UploadFileOptions {
    /// Asks for replication: written as `type=replicate` when `Some(true)`, left out otherwise.
    pub replicated: Option<bool>,
    /// modification timestamp in epoch seconds
    pub ts: Option<u64>,
    /// content is a chunk manifest file
    pub cm: Option<bool>,
}

/// The `type` value of a store: `replicate` only for `Some(true)`.
pub open spec fn replicated_value(o: Option<bool>) -> Option<Seq<char>> {
    match o {
        Some(true) => Some("replicate"@),
        _ => None,
    }
}

impl UploadFileOptions {
    pub open spec fn spec_query(&self) -> Seq<char> {
        let q = query_add(Seq::empty(), "type"@, replicated_value(self.replicated));
        let q = query_add(q, "ts"@, num_value(self.ts));
        query_add(q, "cm"@, bool_value(self.cm))
    }

    pub fn to_query(&self) -> (r: String)
        ensures
            r@ == self.spec_query(),
    {
        let mut q = String::new();
        if let Some(true) = self.replicated {
            add_raw(&mut q, "type", "replicate");
        }
        add_num(&mut q, "ts", self.ts);
        add_bool(&mut q, "cm", self.cm);
        q
    }

    /// With no other option set, the flag alone decides the query: exactly
    /// `type=replicate` for `Some(true)`, and nothing at all for `Some(false)` or `None`.
    pub proof fn lemma_replicated_flag(&self)
        requires
            self.ts is None,
            self.cm is None,
        ensures
            self.replicated == Some(true) ==> self.spec_query() == "type=replicate"@,
            self.replicated != Some(true) ==> self.spec_query() == Seq::<char>::empty(),
    {
        reveal_strlit("type=replicate");
        reveal_strlit("type");
        reveal_strlit("replicate");
        if self.replicated == Some(true) {
            assert(self.spec_query() =~= "type=replicate"@);
        }
    }
}

impl Default for UploadFileOptions {
    fn default() -> (r: Self)
        ensures
            r.spec_query() == Seq::<char>::empty(),
    {
        UploadFileOptions { replicated: None, ts: None, cm: None }
    }
}

pub open spec fn upload_query(o: Option<UploadFileOptions>) -> Seq<char> {
    match o {
        Some(x) => x.spec_query(),
        None => Seq::empty(),
    }
}

/// Return type for the volume function `upload_file_bytes`
pub struct UploadResponse {
    pub size: usize,
    pub e_tag: Option<String>,
}

/// Return type for the volume function `delete_file`
pub struct DeleteResponse {
    pub size: usize,
}

impl Volume {
    pub open spec fn spec_base(&self) -> Seq<char> {
        base_url(self.host@, self.port)
    }

    /// URL of a file: the base URL, `/`, the file id.
    pub open spec fn spec_file_url(&self, fid: FID) -> Seq<char> {
        self.spec_base() + seq!['/'] + fid_text(fid@)
    }

    pub fn to_string(&self) -> (r: String)
        ensures
            r@ == self.spec_base(),
    {
        format_base_url(&self.host, self.port)
    }

    /// Creates a volume from a string
    ///
    /// Should be used in combination with [locations](crate::utils::Location) received from looking up a volume
    ///
    /// # Example
    /// ```
    /// use rusty_weed::volume::Volume;
    ///
    /// let volume = Volume::from_str("1.1.1.1:9333").unwrap();
    /// ```
    pub fn from_str(s: &str) -> (r: Result<Volume, VolumeErrors>)
        ensures
            match r {
                Ok(v) => v.port is Some && parse_address(s@) == Some((v.host@, v.port->0)),
                Err(e) => parse_address(s@) is None && e == VolumeErrors::WrongFormat,
            },
    {
        match read_address(s) {
            Some((host, port)) => Ok(Volume { host, port: Some(port) }),
            None => Err(VolumeErrors::WrongFormat),
        }
    }

    /// URL of a file without a query; a delete goes there.
    pub fn file_url(&self, fid: &FID) -> (r: String)
        ensures
            r@ == self.spec_file_url(*fid),
    {
        proof {
            reveal_strlit("/");
        }
        let mut u = self.to_string();
        u.append("/");
        let t = fid.to_string();
        u.append(t.as_str());
        u
    }

    /// URL of a fetch: the file's URL, `?`, the fetch options.
    pub fn get_file_url(&self, fid: &FID, options: &Option<GetFileOptions>) -> (r: String)
        ensures
            r@ == self.spec_file_url(*fid) + seq!['?'] + get_query(*options),
    {
        proof {
            reveal_strlit("?");
        }
        let mut u = self.file_url(fid);
        u.append("?");
        if let Some(o) = options {
            let q = o.to_query();
            u.append(q.as_str());
        }
        u
    }

    /// URL of a store: the file's URL, `?`, the store options.
    pub fn upload_url(&self, fid: &FID, options: &Option<UploadFileOptions>) -> (r: String)
        ensures
            r@ == self.spec_file_url(*fid) + seq!['?'] + upload_query(*options),
    {
        proof {
            reveal_strlit("?");
        }
        let mut u = self.file_url(fid);
        u.append("?");
        if let Some(o) = options {
            let q = o.to_query();
            u.append(q.as_str());
        }
        u
    }

    /// Whether a fetch succeeded: status 200.
    pub fn fetch_ok(status: u16) -> (r: bool)
        ensures
            r == (status == 200),
    {
        status == 200
    }

    /// The failure of a fetch whose status was not 200, from the reply's body.
    pub fn fetch_failure(body: &Vec<u8>) -> (r: VolumeErrors)
        ensures
            r matches VolumeErrors::InvalidRequest(t) && t@ == lossy_text(body@),
    {
        VolumeErrors::InvalidRequest(text_of_bytes(body))
    }

    /// Result of a fetch of the bytes from the reply's status and body: the body
    /// on 200, `FileNotFound` on 404, otherwise `InvalidRequest` with the body as text.
    pub fn get_file_reply(status: u16, body: Vec<u8>) -> (r: Result<Vec<u8>, VolumeErrors>)
        ensures
            status == 200 ==> (r matches Ok(b) && b@ == body@),
            status == 404 ==> r matches Err(VolumeErrors::FileNotFound),
            status != 200 && status != 404 ==> (r matches Err(VolumeErrors::InvalidRequest(t))
                && t@ == lossy_text(body@)),
    {
        if Volume::fetch_ok(status) {
            Ok(body)
        } else if status == 404 {
            Err(VolumeErrors::FileNotFound)
        } else {
            Err(Volume::fetch_failure(&body))
        }
    }

    /// Result of a store from the reply's status and body: the body, which holds
    /// the answer, on 201; otherwise `NotCreated` with the body.
    pub fn upload_reply(status: u16, body: String) -> (r: Result<String, VolumeErrors>)
        ensures
            status == 201 ==> r == Ok::<String, VolumeErrors>(body),
            status != 201 ==> r == Err::<String, VolumeErrors>(VolumeErrors::NotCreated(body)),
    {
        if status == 201 {
            Ok(body)
        } else {
            Err(VolumeErrors::NotCreated(body))
        }
    }

    /// Result of a delete from the reply's status and body: the body, which holds
    /// the answer, on 202; otherwise `NotAccepted` with the body.
    pub fn delete_reply(status: u16, body: String) -> (r: Result<String, VolumeErrors>)
        ensures
            status == 202 ==> r == Ok::<String, VolumeErrors>(body),
            status != 202 ==> r == Err::<String, VolumeErrors>(VolumeErrors::NotAccepted(body)),
    {
        if status == 202 {
            Ok(body)
        } else {
            Err(VolumeErrors::NotAccepted(body))
        }
    }
}

} // verus!
