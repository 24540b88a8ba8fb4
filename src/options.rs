use vstd::prelude::*;
use crate::error::{CertFile, Error, Result};
use crate::pubsub::{check_topic, payload_len, topic_ok, MAX_PAYLOAD};
use crate::qos::Qos;

verus! {

/// Default keep-alive interval, in seconds.
pub const DEFAULT_KEEP_ALIVE: u16 = 30;

/// Default message retry interval, in seconds.
pub const DEFAULT_RETRY_TIME: u32 = 60;

/// The quality of service of a will message.
pub const WILL_QOS: Qos = Qos::ExactlyOnce;

/// Relies on rand::random: a value drawn from the thread-local generator.
/// Nothing is known of which value comes.
#[verifier::external_body]
fn random_u32() -> (r: u32) {
    rand::random::<u32>()
}

/// Relies on String::push: appends one character.
#[verifier::external_body]
fn push_char(s: &mut String, c: char)
    ensures
        final(s)@ == old(s)@.push(c),
{
    s.push(c)
}

/// The decimal digit for `d`, which is below ten.
pub open spec fn digit_char(d: nat) -> char {
    if d == 0 { '0' }
    else if d == 1 { '1' }
    else if d == 2 { '2' }
    else if d == 3 { '3' }
    else if d == 4 { '4' }
    else if d == 5 { '5' }
    else if d == 6 { '6' }
    else if d == 7 { '7' }
    else if d == 8 { '8' }
    else { '9' }
}

/// The decimal notation of `n`, without leading zeros.
pub open spec fn decimal(n: nat) -> Seq<char>
    decreases n,
{
    if n < 10 {
        seq![digit_char(n)]
    } else {
        decimal(n / 10).push(digit_char(n % 10))
    }
}

/// The client id generated from the number `n`: `mqttc_` and `n` in decimal.
pub open spec fn generated_id(n: nat) -> Seq<char> {
    seq!['m', 'q', 't', 't', 'c', '_'] + decimal(n)
}

fn digit(d: u32) -> (c: char)
    requires
        d < 10,
    ensures
        c == digit_char(d as nat),
{
    if d == 0 { '0' }
    else if d == 1 { '1' }
    else if d == 2 { '2' }
    else if d == 3 { '3' }
    else if d == 4 { '4' }
    else if d == 5 { '5' }
    else if d == 6 { '6' }
    else if d == 7 { '7' }
    else if d == 8 { '8' }
    else { '9' }
}

fn push_decimal(s: &mut String, n: u32)
    ensures
        final(s)@ == old(s)@ + decimal(n as nat),
    decreases n,
{
    if n >= 10 {
        push_decimal(s, n / 10);
    }
    push_char(s, digit(n % 10));
    proof {
        assert(old(s)@ + decimal(n as nat) =~= s@) by {
            if n >= 10 {
                assert(decimal(n as nat) == decimal((n / 10) as nat).push(digit_char((n % 10) as nat)));
            } else {
                assert(decimal(n as nat) == seq![digit_char(n as nat)]);
            }
        }
    }
}

/// Settings from which a client session is made.
pub struct MqttClientOptions {
    keep_alive: u16,
    clean_session: bool,
    client_id: Option<String>,
    retry_time: u32,
    ca_cert: Option<String>,
    client_cert: Option<String>,
    client_key: Option<String>,
    username: Option<String>,
    password: Option<String>,
    will: Option<(String, Vec<u8>)>,
}

/// What a set of options holds, as plain values.
pub struct OptionsView {
    pub keep_alive: u16,
    pub clean_session: bool,
    pub client_id: Option<Seq<char>>,
    pub retry_time: u32,
    pub ca_cert: Option<Seq<char>>,
    pub client_cert: Option<Seq<char>>,
    pub client_key: Option<Seq<char>>,
    pub username: Option<Seq<char>>,
    pub password: Option<Seq<char>>,
    /// The will's topic and payload.
    pub will: Option<(Seq<char>, Seq<u8>)>,
}

/// The view of an optional string.
pub open spec fn opt_view(s: Option<String>) -> Option<Seq<char>> {
    match s {
        Some(s) => Some(s@),
        None => None,
    }
}

impl View for MqttClientOptions {
    type V = OptionsView;

    closed spec fn view(&self) -> OptionsView {
        OptionsView {
            keep_alive: self.keep_alive,
            clean_session: self.clean_session,
            client_id: opt_view(self.client_id),
            retry_time: self.retry_time,
            ca_cert: opt_view(self.ca_cert),
            client_cert: opt_view(self.client_cert),
            client_key: opt_view(self.client_key),
            username: opt_view(self.username),
            password: opt_view(self.password),
            will: match self.will {
                Some((t, p)) => Some((t@, p@)),
                None => None,
            },
        }
    }
}

impl MqttClientOptions {
    /// Default options: 30 s keep-alive, clean session, no id, no TLS, 60 s retry.
    pub fn new() -> (r: Self)
        ensures
            r@ == (OptionsView {
                keep_alive: DEFAULT_KEEP_ALIVE,
                clean_session: true,
                client_id: None,
                retry_time: DEFAULT_RETRY_TIME,
                ca_cert: None,
                client_cert: None,
                client_key: None,
                username: None,
                password: None,
                will: None,
            }),
    {
        MqttClientOptions {
            keep_alive: DEFAULT_KEEP_ALIVE,
            clean_session: true,
            client_id: None,
            retry_time: DEFAULT_RETRY_TIME,
            ca_cert: None,
            client_cert: None,
            client_key: None,
            username: None,
            password: None,
            will: None,
        }
    }

    pub fn set_keep_alive(&mut self, secs: u16) -> (r: &mut Self)
        ensures
            *final(self) == *final(r),
            r@ == (OptionsView { keep_alive: secs, ..old(self)@ }),
    {
        self.keep_alive = secs;
        self
    }

    pub fn set_retry_time(&mut self, secs: u32) -> (r: &mut Self)
        ensures
            *final(self) == *final(r),
            r@ == (OptionsView { retry_time: secs, ..old(self)@ }),
    {
        self.retry_time = secs;
        self
    }

    pub fn set_client_id(&mut self, client_id: String) -> (r: &mut Self)
        ensures
            *final(self) == *final(r),
            r@ == (OptionsView { client_id: Some(client_id@), ..old(self)@ }),
    {
        self.client_id = Some(client_id);
        self
    }

    pub fn set_clean_session(&mut self, clean_session: bool) -> (r: &mut Self)
        ensures
            *final(self) == *final(r),
            r@ == (OptionsView { clean_session, ..old(self)@ }),
    {
        self.clean_session = clean_session;
        self
    }

    /// Sets the path of the CA certificate.
    pub fn set_ca_crt(&mut self, path: String) -> (r: &mut Self)
        ensures
            *final(self) == *final(r),
            r@ == (OptionsView { ca_cert: Some(path@), ..old(self)@ }),
    {
        self.ca_cert = Some(path);
        self
    }

    /// Sets the path of the client certificate.
    pub fn set_client_crt(&mut self, path: String) -> (r: &mut Self)
        ensures
            *final(self) == *final(r),
            r@ == (OptionsView { client_cert: Some(path@), ..old(self)@ }),
    {
        self.client_cert = Some(path);
        self
    }

    /// Sets the path of the client's private key.
    pub fn set_client_key(&mut self, path: String) -> (r: &mut Self)
        ensures
            *final(self) == *final(r),
            r@ == (OptionsView { client_key: Some(path@), ..old(self)@ }),
    {
        self.client_key = Some(path);
        self
    }

    /// Sets the user name, and optionally the password, sent to the broker.
    pub fn set_credentials(&mut self, username: String, password: Option<String>) -> (r: &mut Self)
        ensures
            *final(self) == *final(r),
            r@ == (OptionsView { username: Some(username@), password: opt_view(password), ..old(self)@ }),
    {
        self.username = Some(username);
        self.password = password;
        self
    }

    /// Sets the will: the message that the broker publishes on `topic` when
    /// the client goes away without disconnecting. Its quality of service is
    /// `WILL_QOS`.
    pub fn set_will(&mut self, topic: String, payload: Vec<u8>) -> (r: &mut Self)
        ensures
            *final(self) == *final(r),
            r@ == (OptionsView { will: Some((topic@, payload@)), ..old(self)@ }),
    {
        self.will = Some((topic, payload));
        self
    }

    /// Sets the client id to the one generated from `n` (see `generated_id`).
    pub fn set_generated_client_id(&mut self, n: u32) -> (r: &mut Self)
        ensures
            *final(self) == *final(r),
            r@ == (OptionsView { client_id: Some(generated_id(n as nat)), ..old(self)@ }),
    {
        let id = generated_client_id(n);
        self.client_id = Some(id);
        self
    }

    /// Sets a randomly generated client id, `mqttc_` and a random number.
    pub fn generate_client_id(&mut self) -> (r: &mut Self)
        ensures
            *final(self) == *final(r),
            exists|n: u32| r@ == (OptionsView { client_id: Some(#[trigger] generated_id(n as nat)), ..old(self)@ }),
    {
        let n = random_u32();
        self.set_generated_client_id(n)
    }

    /// Gives the options a generated client id where none was set.
    pub fn ensure_client_id(&mut self)
        ensures
            old(self)@.client_id is Some ==> final(self)@ == old(self)@,
            old(self)@.client_id is None ==> exists|n: u32|
                final(self)@ == (OptionsView { client_id: Some(#[trigger] generated_id(n as nat)), ..old(self)@ }),
    {
        if self.client_id.is_none() {
            self.generate_client_id();
        }
    }

    pub fn keep_alive(&self) -> (r: u16)
        ensures
            r == self@.keep_alive,
    {
        self.keep_alive
    }

    pub fn clean_session(&self) -> (r: bool)
        ensures
            r == self@.clean_session,
    {
        self.clean_session
    }

    pub fn retry_time(&self) -> (r: u32)
        ensures
            r == self@.retry_time,
    {
        self.retry_time
    }

    pub fn username(&self) -> (r: Option<&str>)
        ensures
            opt_str_view(r) == self@.username,
    {
        match &self.username {
            Some(s) => Some(s.as_str()),
            None => None,
        }
    }

    pub fn password(&self) -> (r: Option<&str>)
        ensures
            opt_str_view(r) == self@.password,
    {
        match &self.password {
            Some(s) => Some(s.as_str()),
            None => None,
        }
    }

    /// The will's topic and payload, if a will is set.
    pub fn will(&self) -> (r: Option<(&str, &[u8])>)
        ensures
            match r {
                Some((t, p)) => self@.will == Some((t@, p@)),
                None => self@.will is None,
            },
    {
        match &self.will {
            Some((t, p)) => Some((t.as_str(), p.as_slice())),
            None => None,
        }
    }

    /// Checks that the will, if set, can be handed to the engine: its topic
    /// holds no NUL byte (else `InvalidTopic`) and its payload is at most
    /// `MAX_PAYLOAD` bytes long (else `PayloadTooLarge`).
    pub fn check_will(&self) -> (r: Result<()>)
        ensures
            r is Ok <==> match self@.will {
                Some((t, p)) => topic_ok(t) && p.len() <= MAX_PAYLOAD,
                None => true,
            },
            r is Err ==> match self@.will {
                Some((t, p)) => if !topic_ok(t) {
                    r matches Err(Error::InvalidTopic)
                } else {
                    r matches Err(Error::PayloadTooLarge)
                },
                None => false,
            },
    {
        match &self.will {
            None => Ok(()),
            Some((t, p)) => {
                check_topic(t.as_str())?;
                payload_len(p.as_slice())?;
                Ok(())
            },
        }
    }

    pub fn client_id(&self) -> (r: Option<&str>)
        ensures
            opt_str_view(r) == self@.client_id,
    {
        match &self.client_id {
            Some(s) => Some(s.as_str()),
            None => None,
        }
    }
}

/// The view of an optional string slice.
pub open spec fn opt_str_view(s: Option<&str>) -> Option<Seq<char>> {
    match s {
        Some(s) => Some(s@),
        None => None,
    }
}

/// The client id generated from `n`.
pub fn generated_client_id(n: u32) -> (r: String)
    ensures
        r@ == generated_id(n as nat),
{
    let mut s = "mqttc_".to_string();
    proof {
        reveal_strlit("mqttc_");
    }
    push_decimal(&mut s, n);
    proof {
        assert(s@ =~= generated_id(n as nat));
    }
    s
}

/// The three TLS files of a session, by path.
pub struct TlsFiles {
    pub ca_cert: String,
    pub client_cert: String,
    pub client_key: String,
}

/// The first TLS file that is not set, where at least one is set and one is not.
pub open spec fn tls_missing(v: OptionsView) -> Option<CertFile> {
    if v.ca_cert is None && v.client_cert is None && v.client_key is None {
        None
    } else if v.ca_cert is None {
        Some(CertFile::CaCert)
    } else if v.client_cert is None {
        Some(CertFile::ClientCert)
    } else if v.client_key is None {
        Some(CertFile::ClientKey)
    } else {
        None
    }
}

/// The TLS file that validation names, if any: the first that is not set
/// where the set is incomplete, else the first that does not exist.
pub open spec fn tls_fault(v: OptionsView, ca_exists: bool, cert_exists: bool, key_exists: bool) -> Option<CertFile> {
    if tls_missing(v) is Some {
        tls_missing(v)
    } else if v.ca_cert is None {
        None
    } else if !ca_exists {
        Some(CertFile::CaCert)
    } else if !cert_exists {
        Some(CertFile::ClientCert)
    } else if !key_exists {
        Some(CertFile::ClientKey)
    } else {
        None
    }
}

impl MqttClientOptions {
    /// Validates the TLS material. The flags tell whether the CA certificate,
    /// the client certificate and the client key exist on the filesystem; a
    /// flag of a file that is not set is not read. Returns the three paths when
    /// all are set and exist, nothing when none is set, and
    /// `InvalidCertPath` naming the file at fault otherwise.
    pub fn validate_tls(&self, ca_exists: bool, cert_exists: bool, key_exists: bool) -> (r: Result<
        Option<TlsFiles>,
    >)
        ensures
            r is Err <==> tls_fault(self@, ca_exists, cert_exists, key_exists) is Some,
            r is Err ==> r == Err::<Option<TlsFiles>, Error>(
                Error::InvalidCertPath(tls_fault(self@, ca_exists, cert_exists, key_exists).unwrap()),
            ),
            r matches Ok(None) <==> (self@.ca_cert is None && self@.client_cert is None
                && self@.client_key is None),
            r matches Ok(Some(f)) ==> Some(f.ca_cert@) == self@.ca_cert && Some(f.client_cert@)
                == self@.client_cert && Some(f.client_key@) == self@.client_key,
    {
        match (&self.ca_cert, &self.client_cert, &self.client_key) {
            (None, None, None) => Ok(None),
            (None, _, _) => Err(Error::InvalidCertPath(CertFile::CaCert)),
            (_, None, _) => Err(Error::InvalidCertPath(CertFile::ClientCert)),
            (_, _, None) => Err(Error::InvalidCertPath(CertFile::ClientKey)),
            (Some(ca), Some(cert), Some(key)) => {
                if !ca_exists {
                    Err(Error::InvalidCertPath(CertFile::CaCert))
                } else if !cert_exists {
                    Err(Error::InvalidCertPath(CertFile::ClientCert))
                } else if !key_exists {
                    Err(Error::InvalidCertPath(CertFile::ClientKey))
                } else {
                    Ok(Some(TlsFiles { ca_cert: ca.clone(), client_cert: cert.clone(), client_key: key.clone() }))
                }
            },
        }
    }

    /// The path of the CA certificate, if set.
    pub fn ca_crt(&self) -> (r: Option<&str>)
        ensures
            opt_str_view(r) == self@.ca_cert,
    {
        match &self.ca_cert {
            Some(s) => Some(s.as_str()),
            None => None,
        }
    }

    /// The path of the client certificate, if set.
    pub fn client_crt(&self) -> (r: Option<&str>)
        ensures
            opt_str_view(r) == self@.client_cert,
    {
        match &self.client_cert {
            Some(s) => Some(s.as_str()),
            None => None,
        }
    }

    /// The path of the client key, if set.
    pub fn client_key(&self) -> (r: Option<&str>)
        ensures
            opt_str_view(r) == self@.client_key,
    {
        match &self.client_key {
            Some(s) => Some(s.as_str()),
            None => None,
        }
    }
}

/// TLS validation fails with `InvalidCertPath` when one or two of the three
/// files are set; with all three set it names the first file that does not
/// exist; with all three set and existing it succeeds.
pub proof fn lemma_tls_validation(v: OptionsView, ca_exists: bool, cert_exists: bool, key_exists: bool)
    ensures
        ({
            let n = (if v.ca_cert is Some { 1int } else { 0 }) + (if v.client_cert is Some { 1int } else { 0 })
                + (if v.client_key is Some { 1int } else { 0 });
            1 <= n <= 2 ==> tls_fault(v, ca_exists, cert_exists, key_exists) is Some
        }),
        v.ca_cert is Some && v.client_cert is Some && v.client_key is Some ==> {
            &&& !ca_exists ==> tls_fault(v, ca_exists, cert_exists, key_exists) == Some(CertFile::CaCert)
            &&& ca_exists && !cert_exists ==> tls_fault(v, ca_exists, cert_exists, key_exists) == Some(
                CertFile::ClientCert,
            )
            &&& ca_exists && cert_exists && !key_exists ==> tls_fault(v, ca_exists, cert_exists, key_exists)
                == Some(CertFile::ClientKey)
            &&& ca_exists && cert_exists && key_exists ==> tls_fault(v, ca_exists, cert_exists, key_exists)
                is None
        },
{
}

} // verus!
