use vstd::prelude::*;

verus! {

/// A session handed out by the server after a successful login.
pub struct Token {
    pub token: String,
    pub user_id: u32,
    /// The expiry stamp of the session, in seconds since the Unix epoch.
    pub expiry: u64,
    /// The display name of the logged-in user, where the server listed it.
    pub username: Option<String>,
}

impl Token {
    /// Whether the clock reading `now` (seconds since the Unix epoch) has
    /// reached the token's expiry stamp.
    pub fn is_valid(&self, now: u64) -> (r: bool)
        ensures
            r == (now >= self.expiry),
    {
        now >= self.expiry
    }

    /// A copy of the token with the same fields.
    pub fn duplicate(&self) -> (r: Token)
        ensures
            r == *self,
    {
        let username = match &self.username {
            Some(name) => Some(name.clone()),
            None => None,
        };
        Token { token: self.token.clone(), user_id: self.user_id, expiry: self.expiry, username }
    }
}

/// A message as the server lists it.
pub struct ServerMessage {
    pub id: u32,
    pub body: String,
    pub user_id: u32,
    pub in_reply_to: Option<u32>,
    pub channel: String,
    /// When the message was created, in seconds since the Unix epoch (UTC).
    pub created_at: i64,
}

/// A user as the server lists it.
pub struct User {
    pub id: u32,
    pub name: String,
}

/// The credentials sent to the server's login endpoint.
pub struct AuthRequest {
    pub name: String,
    pub password: String,
}

/// What the client asks of the network task.
pub enum NetworkRequest {
    Authenticate(AuthRequest),
    SendMessage { content: String, session: Token },
    FetchMessages,
    RefreshToken,
}

} // verus!
