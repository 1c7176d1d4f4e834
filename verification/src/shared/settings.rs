use vstd::prelude::*;

verus! {

/// How session tokens are signed.
#[derive(Clone)]
pub struct JwtSettings {
    pub secret: String,
}

/// The registration of this service with the Entra identity provider.
#[derive(Clone)]
pub struct EntraSettings {
    pub tenant_id: String,
    pub client_id: String,
    pub client_secret: String,
    pub redirect_uri: String,
}

/// How to reach the user database.
#[derive(Clone)]
pub struct DbSettings {
    pub connection_string: String,
    pub username: String,
    pub password: String,
    pub namespace: String,
    pub database: String,
}

/// All of the service's settings.
#[derive(Clone)]
pub struct Settings {
    pub jwt: JwtSettings,
    pub entra: EntraSettings,
    pub db: DbSettings,
}

impl JwtSettings {
    /// Signing settings with the shared secret `secret`.
    pub fn new(secret: String) -> (settings: JwtSettings)
        ensures
            settings.secret == secret,
    {
        JwtSettings { secret }
    }

    /// The shared signing secret.
    pub fn secret(&self) -> (secret: &String)
        ensures
            secret == &self.secret,
    {
        &self.secret
    }
}

impl EntraSettings {
    /// The registration with the given tenant, client and redirect URI.
    pub fn new(tenant_id: String, client_id: String, client_secret: String, redirect_uri: String) -> (settings: EntraSettings)
        ensures
            settings.tenant_id == tenant_id,
            settings.client_id == client_id,
            settings.client_secret == client_secret,
            settings.redirect_uri == redirect_uri,
    {
        EntraSettings { tenant_id, client_id, client_secret, redirect_uri }
    }

    /// The directory tenant.
    pub fn tenant_id(&self) -> (v: &String)
        ensures
            v == &self.tenant_id,
    {
        &self.tenant_id
    }

    /// The application's client id.
    pub fn client_id(&self) -> (v: &String)
        ensures
            v == &self.client_id,
    {
        &self.client_id
    }

    /// The application's client secret.
    pub fn client_secret(&self) -> (v: &String)
        ensures
            v == &self.client_secret,
    {
        &self.client_secret
    }

    /// Where the identity provider sends the callback.
    pub fn redirect_uri(&self) -> (v: &String)
        ensures
            v == &self.redirect_uri,
    {
        &self.redirect_uri
    }
}

impl DbSettings {
    /// The database settings with the given connection, credentials and scope.
    pub fn new(connection_string: String, username: String, password: String, namespace: String, database: String) -> (settings: DbSettings)
        ensures
            settings.connection_string == connection_string,
            settings.username == username,
            settings.password == password,
            settings.namespace == namespace,
            settings.database == database,
    {
        DbSettings { connection_string, username, password, namespace, database }
    }

    /// The database endpoint.
    pub fn connection_string(&self) -> (v: &String)
        ensures
            v == &self.connection_string,
    {
        &self.connection_string
    }

    /// The user to sign in as.
    pub fn username(&self) -> (v: &String)
        ensures
            v == &self.username,
    {
        &self.username
    }

    /// The password to sign in with.
    pub fn password(&self) -> (v: &String)
        ensures
            v == &self.password,
    {
        &self.password
    }

    /// The namespace to use.
    pub fn namespace(&self) -> (v: &String)
        ensures
            v == &self.namespace,
    {
        &self.namespace
    }

    /// The database to use.
    pub fn database(&self) -> (v: &String)
        ensures
            v == &self.database,
    {
        &self.database
    }
}

impl Settings {
    /// The settings made of the three parts.
    pub fn from_parts(jwt: JwtSettings, entra: EntraSettings, db: DbSettings) -> (settings: Settings)
        ensures
            settings.jwt == jwt,
            settings.entra == entra,
            settings.db == db,
    {
        Settings { jwt, entra, db }
    }

    /// The token-signing settings.
    pub fn jwt(&self) -> (v: &JwtSettings)
        ensures
            v == &self.jwt,
    {
        &self.jwt
    }

    /// The identity-provider settings.
    pub fn entra(&self) -> (v: &EntraSettings)
        ensures
            v == &self.entra,
    {
        &self.entra
    }

    /// The database settings.
    pub fn db(&self) -> (v: &DbSettings)
        ensures
            v == &self.db,
    {
        &self.db
    }
}

} // verus!
