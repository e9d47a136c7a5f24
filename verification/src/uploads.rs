//! The object-storage client: where uploaded files are kept and how they are
//! addressed. The storage service's own client is the parameter `S`; the
//! requests to it are made by the caller.

use vstd::prelude::*;

verus! {

/// A storage client bound to one bucket of one region.
#[derive(Debug, Clone)]
pub struct Client<S> {
    s3: S,
    bucket_name: String,
    region: String,
}

/// The public URL of object `key` in bucket `bucket_name` of region `region`.
pub open spec fn object_url(bucket_name: Seq<char>, region: Seq<char>, key: Seq<char>) -> Seq<char> {
    "https://"@ + bucket_name + ".s3."@ + region + ".amazonaws.com/"@ + key
}

/// A URL is `https://`, the bucket's name, `.s3.`, the region,
/// `.amazonaws.com/` and the whole key, in that order: it starts with
/// `https://{bucket}.s3.{region}.amazonaws.com/`, ends with the whole key, and its
/// length is the sum of its parts' (27 characters besides bucket, region and key).
pub proof fn law_url_holds_whole_key(bucket_name: Seq<char>, region: Seq<char>, key: Seq<char>)
    ensures
        ({
            let url = object_url(bucket_name, region, key);
            let host = "https://"@ + bucket_name + ".s3."@ + region + ".amazonaws.com/"@;
            &&& url.len() == 27 + bucket_name.len() + region.len() + key.len()
            &&& url.subrange(0, host.len() as int) == host
            &&& url.subrange(url.len() - key.len(), url.len() as int) == key
            &&& url.subrange(0, 8) == "https://"@
        }),
{
    reveal_strlit("https://");
    reveal_strlit(".s3.");
    reveal_strlit(".amazonaws.com/");
    let url = object_url(bucket_name, region, key);
    let host = "https://"@ + bucket_name + ".s3."@ + region + ".amazonaws.com/"@;
    assert(url =~= host + key);
    assert(url.subrange(0, host.len() as int) =~= host);
    assert(url.subrange(url.len() - key.len(), url.len() as int) =~= key);
    assert(url.subrange(0, 8) =~= "https://"@);
}

/// The size assumed for a file whose length is unknown.
pub open spec fn default_read_capacity() -> u64 {
    1024
}

impl<S> Client<S> {
    /// The service client.
    pub closed spec fn spec_s3(&self) -> S {
        self.s3
    }

    /// The bucket's name.
    pub closed spec fn spec_bucket_name(&self) -> Seq<char> {
        self.bucket_name@
    }

    /// The bucket's region.
    pub closed spec fn spec_region(&self) -> Seq<char> {
        self.region@
    }

    /// A client for bucket `bucket_name` of region `region`, through `s3`.
    pub fn new(s3: S, bucket_name: String, region: String) -> (client: Client<S>)
        ensures
            client.spec_s3() == s3,
            client.spec_bucket_name() == bucket_name@,
            client.spec_region() == region@,
    {
        Client { s3, bucket_name, region }
    }

    /// The service client.
    pub fn s3(&self) -> (s3: &S)
        ensures
            *s3 == self.spec_s3(),
    {
        &self.s3
    }

    /// The bucket's name.
    pub fn bucket_name(&self) -> (name: &str)
        ensures
            name@ == self.spec_bucket_name(),
    {
        self.bucket_name.as_str()
    }

    /// The public URL of object `key`:
    /// `https://{bucket_name}.s3.{region}.amazonaws.com/{key}`.
    pub fn url(&self, key: &str) -> (url: String)
        ensures
            url@ == object_url(self.spec_bucket_name(), self.spec_region(), key@),
            url@ == "https://"@ + self.spec_bucket_name() + ".s3."@ + self.spec_region()
                + ".amazonaws.com/"@ + key@,
            url@.len() == 27 + self.spec_bucket_name().len() + self.spec_region().len() + key@.len(),
            url@.subrange(url@.len() - key@.len(), url@.len() as int) == key@,
    {
        proof {
            law_url_holds_whole_key(self.spec_bucket_name(), self.spec_region(), key@);
        }
        let mut url = String::from_str("https://");
        url.append(self.bucket_name.as_str());
        url.append(".s3.");
        url.append(self.region.as_str());
        url.append(".amazonaws.com/");
        url.append(key);
        url
    }
}

/// The key under which a file is uploaded: the prefix followed by the file's
/// name; no key when the file has no name.
pub fn upload_key(key_prefix: &str, file_name: &Option<String>) -> (key: Option<String>)
    ensures
        match file_name {
            Some(name) => key matches Some(k) && k@ == key_prefix@ + name@,
            None => key is None,
        },
{
    match file_name {
        Some(name) => {
            let mut key = String::from_str(key_prefix);
            key.append(name.as_str());
            Some(key)
        },
        None => None,
    }
}

/// The size of a fetched object from its content length: none when the length is
/// missing or negative, which is no valid size.
pub fn object_size(content_length: Option<i64>) -> (size: Option<u64>)
    ensures
        match content_length {
            Some(length) if length >= 0 => size == Some(length as u64),
            _ => size is None,
        },
{
    match content_length {
        Some(length) => {
            if length >= 0 {
                Some(length as u64)
            } else {
                None
            }
        },
        None => None,
    }
}

/// How many bytes to reserve for reading a file of length `file_len` (1024 when
/// unknown); none when that does not fit in memory addresses.
pub fn read_capacity(file_len: Option<u64>) -> (capacity: Option<usize>)
    ensures
        ({
            let wanted = match file_len {
                Some(len) => len,
                None => default_read_capacity(),
            };
            match capacity {
                Some(c) => c == wanted,
                None => wanted > usize::MAX,
            }
        }),
        file_len is None ==> capacity == Some(1024usize),
        (file_len matches Some(len) && len <= usize::MAX) ==> capacity == Some(file_len->0 as usize),
{
    let wanted: u64 = match file_len {
        Some(len) => len,
        None => 1024,
    };
    if wanted <= usize::MAX as u64 {
        Some(wanted as usize)
    } else {
        None
    }
}

} // verus!
