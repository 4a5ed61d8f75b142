//! The engine client: where it connects, the URL of each endpoint, and the
//! JSON body of a container creation.
use vstd::prelude::*;
use vstd::string::StringExecFns;

use crate::types::ContainerCreateSpec;

verus! {

/// The JSON string literal, quoted and escaped, that denotes `s`.
pub uninterp spec fn json_string_of(s: Seq<char>) -> Seq<char>;

/// Relies on `serde_json::to_string` for a `str`: it renders the JSON string
/// literal that denotes the text, and depends on the text alone.
#[verifier::external_body]
fn json_string(s: &str) -> (r: String)
    ensures
        r@ == json_string_of(s@),
{
    match serde_json::to_string(s) {
        Ok(text) => text,
        Err(_) => String::new(),
    }
}

/// The JSON array of the strings `items`, without its brackets.
pub open spec fn json_list(items: Seq<Seq<char>>) -> Seq<char>
    decreases items.len(),
{
    if items.len() == 0 {
        Seq::empty()
    } else if items.len() == 1 {
        json_string_of(items[0])
    } else {
        json_list(items.drop_last()) + seq![','] + json_string_of(items.last())
    }
}

/// The texts of a list of string slices.
pub open spec fn texts(items: Seq<&str>) -> Seq<Seq<char>> {
    Seq::new(items.len(), |i: int| items[i]@)
}

/// A client of the engine listening on a UNIX socket.
#[derive(Debug)]
pub struct DockerClient {
    pub socket: String,
}

/// Room for one archive chunk in an upload.
pub const UPLOAD_BUFFER: usize = 65536;

impl DockerClient {
    pub fn open(socket: &str) -> (r: DockerClient)
        ensures
            r.socket@ == socket@,
    {
        DockerClient { socket: socket.to_owned() }
    }

    pub fn containers_list_url() -> (r: String)
        ensures
            r@ == "/v1.42/containers/json?all=true"@,
    {
        "/v1.42/containers/json?all=true".to_owned()
    }

    pub fn containers_create_url() -> (r: String)
        ensures
            r@ == "/v1.42/containers/create"@,
    {
        "/v1.42/containers/create".to_owned()
    }

    /// `/v1.42/containers/{id}` followed by `suffix`.
    fn container_url(id: &str, suffix: &str) -> (r: String)
        ensures
            r@ == "/v1.42/containers/"@ + id@ + suffix@,
    {
        "/v1.42/containers/".to_owned().concat(id).concat(suffix)
    }

    pub fn containers_start_url(id: &str) -> (r: String)
        ensures
            r@ == "/v1.42/containers/"@ + id@ + "/start"@,
    {
        Self::container_url(id, "/start")
    }

    pub fn containers_stop_url(id: &str) -> (r: String)
        ensures
            r@ == "/v1.42/containers/"@ + id@ + "/stop"@,
    {
        Self::container_url(id, "/stop")
    }

    pub fn containers_wait_url(id: &str) -> (r: String)
        ensures
            r@ == "/v1.42/containers/"@ + id@ + "/wait"@,
    {
        Self::container_url(id, "/wait")
    }

    pub fn containers_remove_url(id: &str) -> (r: String)
        ensures
            r@ == "/v1.42/containers/"@ + id@,
    {
        "/v1.42/containers/".to_owned().concat(id)
    }

    pub fn containers_logs_url(id: &str) -> (r: String)
        ensures
            r@ == "/v1.42/containers/"@ + id@ + "/logs?stdout=true"@,
    {
        Self::container_url(id, "/logs?stdout=true")
    }

    pub fn containers_attach_url(id: &str) -> (r: String)
        ensures
            r@ == "/v1.42/containers/"@ + id@ + "/attach?logs=true&stream=true&stdout=true&stderr=true"@,
    {
        Self::container_url(id, "/attach?logs=true&stream=true&stdout=true&stderr=true")
    }

    pub fn container_upload_url(id: &str, path: &str) -> (r: String)
        ensures
            r@ == "/v1.42/containers/"@ + id@ + "/archive?path="@ + path@,
    {
        Self::container_url(id, "/archive?path=").concat(path)
    }

    pub fn images_create_url() -> (r: String)
        ensures
            r@ == "/v1.42/images/create?fromImage=python:3.12"@,
    {
        "/v1.42/images/create?fromImage=python:3.12".to_owned()
    }
}

impl<'a> ContainerCreateSpec<'a> {
    /// The request body of a container creation:
    /// `{"Image":<image>,"Cmd":[<command>...]}`.
    pub fn payload(&self) -> (r: String)
        ensures
            r@ == "{\"Image\":"@ + json_string_of(self.image@) + ",\"Cmd\":["@ + json_list(
                texts(self.command@),
            ) + "]}"@,
    {
        let mut body: String = "{\"Image\":".to_owned();
        let image: String = json_string(self.image);
        body.append(image.as_str());
        body.append(",\"Cmd\":[");
        let ghost head = body@;
        let mut i: usize = 0;
        while i < self.command.len()
            invariant
                i <= self.command@.len(),
                body@ == head + json_list(texts(self.command@.take(i as int))),
            decreases self.command@.len() - i,
        {
            if i > 0 {
                body.append(",");
            }
            let item: String = json_string(self.command[i]);
            body.append(item.as_str());
            proof {
                let before = texts(self.command@.take(i as int));
                let after = texts(self.command@.take(i + 1));
                assert(after.drop_last() =~= before);
                assert(after.last() == self.command@[i as int]@);
                reveal_strlit(",");
                if i > 0 {
                    assert(body@ =~= head + json_list(after));
                } else {
                    assert(before.len() == 0);
                    assert(after.len() == 1);
                    assert(body@ =~= head + json_list(after));
                }
            }
            i = i + 1;
        }
        assert(self.command@.take(self.command@.len() as int) =~= self.command@);
        body.append("]}");
        body
    }
}

} // verus!
