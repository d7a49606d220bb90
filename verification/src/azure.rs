//! The uniform store surface for an Azure-style blob backend: configuration,
//! the streaming and explicit multipart entry points, and the signing API.
//!
//! Blob transport (put, get, list, copy, delete) is an external collaborator
//! driven outside this crate; what stands here is everything the backend
//! surface decides by itself: configuration lookup, session sentinels, the
//! engine parameters, the documented no-op abort, and URL signing.

use vstd::prelude::*;
use vstd::string::StringExecFns;
use vstd::utf8::encode_utf8;
use crate::Error;
use crate::MultipartId;
use crate::multipart::MultipartWriter;
use crate::path::Path;
use crate::signer::{
    sign_request, spec_signed_url, AzureCredentialProvider, Method, SignedRequest,
};
use crate::signer::now_unix_seconds;

verus! {

/// Parts are buffered to at least this many bytes before upload.
pub const DEFAULT_MIN_PART_SIZE: usize = 5 * 1024 * 1024;

/// At most this many part uploads run at once.
pub const DEFAULT_MAX_CONCURRENCY: usize = 8;

/// Configuration keys understood by [`MicrosoftAzureBuilder`].
#[derive(Clone, Copy, PartialEq, Eq, Structural, Debug)]
pub enum AzureConfigKey {
    AccountName,
    AccessKey,
    ClientId,
    ClientSecret,
    TenantId,
    ContainerName,
    Token,
}

/// Builder for [`MicrosoftAzure`]: collects configuration values, then
/// validates them into a store.
#[derive(Debug)]
pub struct MicrosoftAzureBuilder {
    pub account_name: Option<String>,
    pub access_key: Option<String>,
    pub client_id: Option<String>,
    pub client_secret: Option<String>,
    pub tenant_id: Option<String>,
    pub container_name: Option<String>,
    pub token: Option<String>,
}

impl MicrosoftAzureBuilder {
    /// The value currently configured under `key`.
    pub open spec fn spec_config(self, key: AzureConfigKey) -> Option<Seq<char>> {
        let field = match key {
            AzureConfigKey::AccountName => self.account_name,
            AzureConfigKey::AccessKey => self.access_key,
            AzureConfigKey::ClientId => self.client_id,
            AzureConfigKey::ClientSecret => self.client_secret,
            AzureConfigKey::TenantId => self.tenant_id,
            AzureConfigKey::ContainerName => self.container_name,
            AzureConfigKey::Token => self.token,
        };
        match field {
            Some(v) => Some(v@),
            None => None,
        }
    }

    /// The secret a built store signs with: the access key when one is
    /// configured, else the bearer token, else none.
    pub open spec fn spec_secret(self) -> Option<Seq<u8>> {
        match self.access_key {
            Some(k) => Some(encode_utf8(k@)),
            None => match self.token {
                Some(t) => Some(encode_utf8(t@)),
                None => None,
            },
        }
    }

    pub fn new() -> (b: MicrosoftAzureBuilder)
        ensures
            forall|k: AzureConfigKey| b.spec_config(k) is None,
    {
        MicrosoftAzureBuilder {
            account_name: None,
            access_key: None,
            client_id: None,
            client_secret: None,
            tenant_id: None,
            container_name: None,
            token: None,
        }
    }

    /// Set the value under `key`, leaving every other key unchanged.
    pub fn with_config(self, key: AzureConfigKey, value: &str) -> (r: MicrosoftAzureBuilder)
        ensures
            r.spec_config(key) == Some(value@),
            forall|k: AzureConfigKey| k != key ==> r.spec_config(k) == self.spec_config(k),
    {
        let mut b = self;
        let owned = Some(value.to_owned());
        match key {
            AzureConfigKey::AccountName => b.account_name = owned,
            AzureConfigKey::AccessKey => b.access_key = owned,
            AzureConfigKey::ClientId => b.client_id = owned,
            AzureConfigKey::ClientSecret => b.client_secret = owned,
            AzureConfigKey::TenantId => b.tenant_id = owned,
            AzureConfigKey::ContainerName => b.container_name = owned,
            AzureConfigKey::Token => b.token = owned,
        }
        b
    }

    /// The value configured under `key`, if any.
    pub fn get_config_value(&self, key: &AzureConfigKey) -> (r: Option<String>)
        ensures
            match r {
                Some(v) => self.spec_config(*key) == Some(v@),
                None => self.spec_config(*key) is None,
            },
    {
        let field = match key {
            AzureConfigKey::AccountName => &self.account_name,
            AzureConfigKey::AccessKey => &self.access_key,
            AzureConfigKey::ClientId => &self.client_id,
            AzureConfigKey::ClientSecret => &self.client_secret,
            AzureConfigKey::TenantId => &self.tenant_id,
            AzureConfigKey::ContainerName => &self.container_name,
            AzureConfigKey::Token => &self.token,
        };
        match field {
            Some(v) => Some(v.clone()),
            None => None,
        }
    }

    pub fn with_account(self, account: &str) -> (r: MicrosoftAzureBuilder)
        ensures
            r.spec_config(AzureConfigKey::AccountName) == Some(account@),
            forall|k: AzureConfigKey|
                k != AzureConfigKey::AccountName ==> r.spec_config(k) == self.spec_config(k),
    {
        self.with_config(AzureConfigKey::AccountName, account)
    }

    pub fn with_container_name(self, container: &str) -> (r: MicrosoftAzureBuilder)
        ensures
            r.spec_config(AzureConfigKey::ContainerName) == Some(container@),
            forall|k: AzureConfigKey|
                k != AzureConfigKey::ContainerName ==> r.spec_config(k) == self.spec_config(k),
    {
        self.with_config(AzureConfigKey::ContainerName, container)
    }

    pub fn with_access_key(self, access_key: &str) -> (r: MicrosoftAzureBuilder)
        ensures
            r.spec_config(AzureConfigKey::AccessKey) == Some(access_key@),
            forall|k: AzureConfigKey|
                k != AzureConfigKey::AccessKey ==> r.spec_config(k) == self.spec_config(k),
    {
        self.with_config(AzureConfigKey::AccessKey, access_key)
    }

    pub fn with_client_id(self, client_id: &str) -> (r: MicrosoftAzureBuilder)
        ensures
            r.spec_config(AzureConfigKey::ClientId) == Some(client_id@),
            forall|k: AzureConfigKey|
                k != AzureConfigKey::ClientId ==> r.spec_config(k) == self.spec_config(k),
    {
        self.with_config(AzureConfigKey::ClientId, client_id)
    }

    pub fn with_client_secret(self, client_secret: &str) -> (r: MicrosoftAzureBuilder)
        ensures
            r.spec_config(AzureConfigKey::ClientSecret) == Some(client_secret@),
            forall|k: AzureConfigKey|
                k != AzureConfigKey::ClientSecret ==> r.spec_config(k) == self.spec_config(k),
    {
        self.with_config(AzureConfigKey::ClientSecret, client_secret)
    }

    pub fn with_tenant_id(self, tenant_id: &str) -> (r: MicrosoftAzureBuilder)
        ensures
            r.spec_config(AzureConfigKey::TenantId) == Some(tenant_id@),
            forall|k: AzureConfigKey|
                k != AzureConfigKey::TenantId ==> r.spec_config(k) == self.spec_config(k),
    {
        self.with_config(AzureConfigKey::TenantId, tenant_id)
    }

    pub fn with_bearer_token(self, token: &str) -> (r: MicrosoftAzureBuilder)
        ensures
            r.spec_config(AzureConfigKey::Token) == Some(token@),
            forall|k: AzureConfigKey|
                k != AzureConfigKey::Token ==> r.spec_config(k) == self.spec_config(k),
    {
        self.with_config(AzureConfigKey::Token, token)
    }

    /// Validate the configuration into a store: an account name, a container
    /// name and a signing secret must all be present.
    pub fn build(self) -> (r: Result<MicrosoftAzure, Error>)
        ensures
            r is Ok <==> (self.account_name is Some && self.container_name is Some
                && self.spec_secret() is Some),
            match r {
                Ok(store) => {
                    &&& self.account_name matches Some(a) && store.account@ == a@
                    &&& self.container_name matches Some(c) && store.container@ == c@
                    &&& store.credentials.secret matches Some(v) && Some(v@)
                        == self.spec_secret()
                    &&& store.credentials.fetches == 0
                },
                Err(e) => {
                    &&& (e is Validation) == (self.account_name is None
                        || self.container_name is None)
                    &&& (e is Credential) == (self.account_name is Some
                        && self.container_name is Some && self.spec_secret() is None)
                },
            },
    {
        let MicrosoftAzureBuilder { account_name, container_name, access_key, token, .. } = self;
        let account = match account_name {
            Some(a) => a,
            None => {
                return Err(Error::Validation("an account name must be configured".to_owned()));
            },
        };
        let container = match container_name {
            Some(c) => c,
            None => {
                return Err(
                    Error::Validation("a container name must be configured".to_owned()),
                );
            },
        };
        let secret: Vec<u8> = match &access_key {
            Some(k) => vstd::slice::slice_to_vec(k.as_str().as_bytes()),
            None => match &token {
                Some(t) => vstd::slice::slice_to_vec(t.as_str().as_bytes()),
                None => {
                    return Err(
                        Error::Credential(
                            "neither an access key nor a token is configured".to_owned(),
                        ),
                    );
                },
            },
        };
        Ok(
            MicrosoftAzure {
                account,
                container,
                credentials: AzureCredentialProvider::new(Some(secret)),
            },
        )
    }
}

/// Interface to one container of a blob-store account: the uniform surface
/// that composes the multipart engine and the signer for this backend.
#[derive(Debug)]
pub struct MicrosoftAzure {
    pub account: String,
    pub container: String,
    pub credentials: AzureCredentialProvider,
}

impl MicrosoftAzure {
    /// The credential provider this store signs with.
    pub fn credentials(&self) -> (r: &AzureCredentialProvider)
        ensures
            r == &self.credentials,
    {
        &self.credentials
    }

    /// Human-readable description of the store.
    pub fn display_string(&self) -> (r: String)
        ensures
            r@ == "MicrosoftAzure { account: "@ + self.account@ + ", container: "@
                + self.container@ + " }"@,
    {
        let mut s = String::from_str("MicrosoftAzure { account: ");
        s.append(self.account.as_str());
        s.append(", container: ");
        s.append(self.container.as_str());
        s.append(" }");
        proof {
            assert(s@ =~= "MicrosoftAzure { account: "@ + self.account@ + ", container: "@
                + self.container@ + " }"@);
        }
        s
    }

    /// Begin a streaming multipart upload to `location`: a fresh engine with
    /// the default minimum part size and concurrency bound, plus the session
    /// identifier. This backend has no session concept, so the identifier is
    /// the empty sentinel: uniqueness is implied by the path alone, and
    /// concurrent writers to one path race at completion, last commit wins.
    pub fn put_multipart(&self, _location: &Path) -> (r: (MultipartId, MultipartWriter))
        ensures
            r.0@ == Seq::<char>::empty(),
            r.1.wf(),
            r.1.min_part_size == DEFAULT_MIN_PART_SIZE,
            r.1.max_concurrency == DEFAULT_MAX_CONCURRENCY,
            r.1.written() == Seq::<u8>::empty(),
            r.1.next_index == 0,
            r.1.completed == 0,
            !r.1.closed,
            r.1.first_error is None,
    {
        (String::new(), MultipartWriter::new(DEFAULT_MIN_PART_SIZE, DEFAULT_MAX_CONCURRENCY))
    }

    /// Allocate an explicit multipart session. This backend has no session
    /// concept: the identifier is the empty sentinel.
    pub fn create_multipart(&self, _location: &Path) -> (r: Result<MultipartId, Error>)
        ensures
            r matches Ok(id) && id@ == Seq::<char>::empty(),
    {
        Ok(String::new())
    }

    /// Abort is a documented no-op for this backend: uploaded, uncommitted
    /// parts cannot be reclaimed here; they expire passively after the
    /// backend's retention window. Always reports success, and callers must
    /// not rely on abort freeing storage.
    pub fn abort_multipart(&self, _location: &Path, _multipart_id: &MultipartId) -> (r: Result<
        (),
        Error,
    >)
        ensures
            r is Ok,
    {
        Ok(())
    }

    /// An authorized URL for `method` on `path`, valid for `expires_in`
    /// seconds from now. The signing credential is obtained freshly, exactly
    /// once; the relative expiry is converted once to an absolute timestamp
    /// and never extended.
    pub fn signed_url(&mut self, method: Method, path: &Path, expires_in: u64) -> (r: Result<
        SignedRequest,
        Error,
    >)
        requires
            old(self).credentials.fetches < u64::MAX,
        ensures
            final(self).account == old(self).account,
            final(self).container == old(self).container,
            final(self).credentials.secret == old(self).credentials.secret,
            final(self).credentials.fetches == old(self).credentials.fetches + 1,
            match r {
                Ok(req) => {
                    &&& old(self).credentials.secret matches Some(sec)
                    &&& req.url@ == spec_signed_url(
                        old(self).account@,
                        old(self).container@,
                        path@,
                        method,
                        req.expiry,
                        sec@,
                    )
                    &&& req.method == method
                    &&& req.expiry >= expires_in
                },
                Err(e) => {
                    &&& e is Credential || e is Signing
                    &&& (e is Credential) == (old(self).credentials.secret is None)
                    &&& e is Signing ==> expires_in > 0
                },
            },
            old(self).credentials.secret is Some && expires_in == 0 ==> r is Ok,
    {
        let credential = match self.credentials.get_credential() {
            Ok(c) => c,
            Err(e) => {
                return Err(e);
            },
        };
        let now = now_unix_seconds();
        sign_request(&self.account, &self.container, path, method, now, expires_in, &credential)
    }

    /// Authorized URLs for a batch of paths: the signing credential is
    /// obtained exactly once and reused across the whole batch, the results
    /// keep input order and share one expiry, and the batch is atomic — on a
    /// credential failure no URLs are produced.
    pub fn signed_urls(&mut self, method: Method, paths: &Vec<Path>, expires_in: u64) -> (r:
        Result<Vec<SignedRequest>, Error>)
        requires
            old(self).credentials.fetches < u64::MAX,
        ensures
            final(self).account == old(self).account,
            final(self).container == old(self).container,
            final(self).credentials.secret == old(self).credentials.secret,
            final(self).credentials.fetches == old(self).credentials.fetches + 1,
            match r {
                Ok(urls) => {
                    &&& old(self).credentials.secret matches Some(sec)
                    &&& urls@.len() == paths@.len()
                    &&& forall|i: int|
                        0 <= i < urls@.len() ==> {
                            &&& urls@[i].method == method
                            &&& urls@[i].expiry >= expires_in
                            &&& urls@[i].expiry == urls@[0].expiry
                            &&& urls@[i].url@ == spec_signed_url(
                                old(self).account@,
                                old(self).container@,
                                paths@[i]@,
                                method,
                                urls@[i].expiry,
                                sec@,
                            )
                        }
                },
                Err(e) => {
                    &&& e is Credential || e is Signing
                    &&& (e is Credential) == (old(self).credentials.secret is None)
                    &&& e is Signing ==> expires_in > 0
                },
            },
            old(self).credentials.secret is Some && expires_in == 0 ==> r is Ok,
    {
        let credential = match self.credentials.get_credential() {
            Ok(c) => c,
            Err(e) => {
                return Err(e);
            },
        };
        let now = now_unix_seconds();
        if expires_in > u64::MAX - now {
            return Err(
                Error::Signing("expiry is outside the representable time range".to_owned()),
            );
        }
        let expiry = now + expires_in;
        let mut urls: Vec<SignedRequest> = Vec::new();
        let mut i: usize = 0;
        while i < paths.len()
            invariant
                i <= paths@.len(),
                urls@.len() == i,
                expiry >= expires_in,
                forall|j: int|
                    0 <= j < i ==> {
                        &&& urls@[j].method == method
                        &&& urls@[j].expiry == expiry
                        &&& urls@[j].url@ == spec_signed_url(
                            self.account@,
                            self.container@,
                            paths@[j]@,
                            method,
                            expiry,
                            credential.secret@,
                        )
                    },
            decreases paths@.len() - i,
        {
            let req = crate::signer::sign_at(
                &self.account,
                &self.container,
                &paths[i],
                method,
                expiry,
                &credential,
            );
            urls.push(req);
            i = i + 1;
        }
        Ok(urls)
    }
}

} // verus!
