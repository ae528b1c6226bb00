//! The requests and responses of the management console, and what each
//! request is answered with. Reaching the storage service and serving HTTP
//! is the caller's part; the answers are decided here.

use vstd::prelude::*;
use vstd::string::*;
use crate::auth::{AuthError, AuthManager, Claims, User, UserRole};
use crate::boundary::{bcrypt_verdict, new_uuid_v4, unix_time_now};
use crate::enterprise_database::{
    name_of, opt_view, role_from_name, role_name, role_of, AuditLog, AuditLogView, DeviceInfo,
};
use crate::text::{clone_strings, str_eq, views_of};

verus! {

/// The request to log in.
#[derive(Debug, Clone, PartialEq, Eq)]
pub struct LoginRequest {
    pub username: String,
    pub password: String,
    pub totp_code: Option<String>,
}

/// The answer to a login.
#[derive(Debug, PartialEq, Eq)]
pub struct LoginResponse {
    pub success: bool,
    pub token: Option<String>,
    pub user: Option<UserInfo>,
    pub message: String,
}

/// What the console shows of a user. `last_login` is in seconds since the
/// Unix epoch.
#[derive(Debug, PartialEq, Eq)]
pub struct UserInfo {
    pub id: String,
    pub username: String,
    pub email: Option<String>,
    pub role: String,
    pub groups: Vec<String>,
    pub enabled: bool,
    pub last_login: Option<u64>,
}

/// The request to create a user.
#[derive(Debug, Clone, PartialEq, Eq)]
pub struct CreateUserRequest {
    pub username: String,
    pub password: String,
    pub email: Option<String>,
    pub role: String,
    pub groups: Vec<String>,
}

/// A list of devices.
#[derive(Debug, PartialEq, Eq)]
pub struct DeviceListResponse {
    pub devices: Vec<DeviceInfo>,
    pub total: usize,
}

/// A list of lines of the audit trail.
#[derive(Debug, PartialEq, Eq)]
pub struct AuditLogResponse {
    pub logs: Vec<AuditLog>,
    pub total: usize,
}

/// The envelope of an answer.
#[derive(Debug, PartialEq, Eq)]
pub struct ApiResponse<T> {
    pub success: bool,
    pub data: Option<T>,
    pub message: String,
}

/// The page that a list is asked for.
#[derive(Debug, Clone, Copy, PartialEq, Eq, Structural)]
pub struct PaginationQuery {
    pub page: Option<u64>,
    pub limit: Option<u64>,
}

/// The lines of the audit trail that are asked for.
#[derive(Debug, Clone, PartialEq, Eq)]
pub struct AuditLogQuery {
    pub user_id: Option<String>,
    pub device_id: Option<String>,
    pub page: Option<u64>,
    pub limit: Option<u64>,
}

/// The HTTP status of a request that was not answered.
#[derive(Debug, Clone, Copy, PartialEq, Eq, Structural)]
pub enum StatusCode {
    BadRequest,
    Unauthorized,
    Forbidden,
    NotFound,
    InternalServerError,
    NotImplemented,
}

impl StatusCode {
    /// The number of the status.
    pub fn as_u16(&self) -> (n: u16)
        ensures
            n == match *self {
                StatusCode::BadRequest => 400u16,
                StatusCode::Unauthorized => 401u16,
                StatusCode::Forbidden => 403u16,
                StatusCode::NotFound => 404u16,
                StatusCode::InternalServerError => 500u16,
                StatusCode::NotImplemented => 501u16,
            },
    {
        match self {
            StatusCode::BadRequest => 400,
            StatusCode::Unauthorized => 401,
            StatusCode::Forbidden => 403,
            StatusCode::NotFound => 404,
            StatusCode::InternalServerError => 500,
            StatusCode::NotImplemented => 501,
        }
    }
}

/// Why the caller of a request is not known.
#[derive(Debug, Clone, Copy, PartialEq, Eq, Structural)]
pub enum HeaderError {
    Missing,
    Format,
    Token,
}

impl HeaderError {
    /// The error in words.
    pub fn message(&self) -> (m: &'static str)
        ensures
            m@ == match *self {
                HeaderError::Missing => "Missing Authorization header"@,
                HeaderError::Format => "Invalid Authorization format"@,
                HeaderError::Token => "Invalid token"@,
            },
    {
        match self {
            HeaderError::Missing => "Missing Authorization header",
            HeaderError::Format => "Invalid Authorization format",
            HeaderError::Token => "Invalid token",
        }
    }
}

/// The page of a list that is served where none is asked for.
pub const DEFAULT_PAGE: u64 = 1;

/// The length of a page that is served where none is asked for.
pub const DEFAULT_LIMIT: u64 = 50;

/// What the console shows of a user.
pub fn user_info(user: &User) -> (info: UserInfo)
    ensures
        info.id@ == user.id@,
        info.username@ == user.username@,
        opt_view(info.email) == opt_view(user.email),
        info.role@ == name_of(user.role),
        views_of(info.groups@) == views_of(user.groups@),
        info.enabled == user.enabled,
        info.last_login == user.last_login,
{
    UserInfo {
        id: user.id.clone(),
        username: user.username.clone(),
        email: match &user.email {
            Some(e) => Some(e.clone()),
            None => None,
        },
        role: role_name(user.role).to_owned(),
        groups: clone_strings(&user.groups),
        enabled: user.enabled,
        last_login: user.last_login,
    }
}

/// Whether the role of the given name administers the system.
pub open spec fn administers(role: Seq<char>) -> bool {
    role == "SuperAdmin"@ || role == "Admin"@
}

/// Whether the role of the given name administers the system.
pub fn is_admin_role(role: &str) -> (r: bool)
    ensures
        r == administers(role@),
{
    str_eq(role, "SuperAdmin") || str_eq(role, "Admin")
}

/// The token that a header of the form `Bearer ` and a token carries.
pub open spec fn bearer_of(header: Seq<char>) -> Option<Seq<char>> {
    if header.len() >= 7 && header.subrange(0, 7) == "Bearer "@ {
        Some(header.subrange(7, header.len() as int))
    } else {
        None
    }
}

/// The token that the authorization header carries.
pub fn bearer_token(header: Option<&str>) -> (r: Result<String, HeaderError>)
    ensures
        match header {
            None => r == Err::<String, HeaderError>(HeaderError::Missing),
            Some(h) => match bearer_of(h@) {
                Some(t) => r matches Ok(token) && token@ == t,
                None => r == Err::<String, HeaderError>(HeaderError::Format),
            },
        },
{
    let h = match header {
        Some(h) => h,
        None => {
            return Err(HeaderError::Missing);
        },
    };
    let n = h.unicode_len();
    if n < 7 {
        return Err(HeaderError::Format);
    }
    let prefix = h.substring_char(0, 7);
    if !str_eq(prefix, "Bearer ") {
        return Err(HeaderError::Format);
    }
    Ok(h.substring_char(7, n).to_owned())
}

/// The claims of the caller of a request, from its authorization header.
pub fn extract_claims_from_headers(auth: &AuthManager, authorization: Option<&str>) -> (r: Result<
    Claims,
    HeaderError,
>)
    ensures
        authorization is None ==> (r matches Err(e) && e == HeaderError::Missing),
        authorization matches Some(h) && bearer_of(h@) is None ==> (r matches Err(e) && e
            == HeaderError::Format),
        authorization matches Some(h) && bearer_of(h@) is Some ==> (r matches Err(e) ==> e
            == HeaderError::Token),
{
    let token = match bearer_token(authorization) {
        Ok(t) => t,
        Err(e) => {
            return Err(e);
        },
    };
    match auth.verify_jwt(token.as_str()) {
        Ok(claims) => Ok(claims),
        Err(_) => Err(HeaderError::Token),
    }
}

/// What the caller does after a login was answered.
#[derive(Debug, PartialEq, Eq)]
pub struct LoginOutcome {
    /// The answer, or the status where there is none.
    pub response: Result<LoginResponse, StatusCode>,
    /// Whether a failed login is to be counted against the user.
    pub count_failure: bool,
    /// Whether the login is to be noted as the user's last.
    pub note_success: bool,
    /// The line for the audit trail, after a login that succeeded.
    pub audit: Option<AuditLog>,
}

/// The steps of a login: the account, the lock, the password, the second
/// factor, the token.
#[derive(Debug, Clone, Copy, PartialEq, Eq, Structural)]
pub enum LoginVerdict {
    UnknownUser,
    Locked,
    WrongPassword,
    SecondFactorMissing,
    TokenFailed,
    Success,
}

/// Where a login ends, from what is known at each step.
pub open spec fn login_verdict(
    user_known: bool,
    locked: bool,
    password_ok: bool,
    two_factor_enabled: bool,
    code_given: bool,
    token_made: bool,
) -> LoginVerdict {
    if !user_known {
        LoginVerdict::UnknownUser
    } else if locked {
        LoginVerdict::Locked
    } else if !password_ok {
        LoginVerdict::WrongPassword
    } else if two_factor_enabled && !code_given {
        LoginVerdict::SecondFactorMissing
    } else if !token_made {
        LoginVerdict::TokenFailed
    } else {
        LoginVerdict::Success
    }
}

/// The message that a login is answered with.
pub open spec fn login_message(v: LoginVerdict) -> Seq<char> {
    match v {
        LoginVerdict::UnknownUser => "用户名或密码错误"@,
        LoginVerdict::Locked => "账户已被锁定，请稍后再试"@,
        LoginVerdict::WrongPassword => "用户名或密码错误"@,
        LoginVerdict::SecondFactorMissing => "需要双因素认证代码"@,
        LoginVerdict::TokenFailed => ""@,
        LoginVerdict::Success => "登录成功"@,
    }
}

/// The line of the audit trail for a login at time `now`.
pub open spec fn login_audit(user_id: Seq<char>, now: u64) -> AuditLogView {
    AuditLogView {
        id: 0,
        user_id,
        device_id: "system"@,
        action: "login"@,
        details: Some("用户登录"@),
        ip_address: "127.0.0.1"@,
        user_agent: None,
        timestamp: now,
        success: true,
    }
}

/// The line of the audit trail for the start of a control session at time
/// `now`.
pub open spec fn control_audit(user_id: Seq<char>, device_id: Seq<char>, now: u64) -> AuditLogView {
    AuditLogView {
        id: 0,
        user_id,
        device_id,
        action: "control_device"@,
        details: Some("用户开始控制设备"@),
        ip_address: "127.0.0.1"@,
        user_agent: None,
        timestamp: now,
        success: true,
    }
}

fn refusal(message: &str) -> (r: LoginResponse)
    ensures
        !r.success,
        r.token is None,
        r.user is None,
        r.message@ == message@,
{
    LoginResponse { success: false, token: None, user: None, message: message.to_owned() }
}

/// What a login comes to, from the account that storage holds for the
/// user name, whether the account is locked, whether the password matches,
/// and the token that was made for the user where one could be made.
pub fn login_outcome(
    user: Option<&User>,
    locked: bool,
    password_ok: bool,
    code_given: bool,
    token: Option<String>,
    now: u64,
) -> (out: LoginOutcome)
    ensures
        ({
            let v = login_verdict(
                user is Some,
                locked,
                password_ok,
                user is Some && user->0.two_factor_enabled,
                code_given,
                token is Some,
            );
            &&& out.count_failure == (v == LoginVerdict::WrongPassword)
            &&& out.note_success == (v == LoginVerdict::Success)
            &&& out.audit is Some <==> v == LoginVerdict::Success
            &&& out.audit matches Some(a) ==> a@ == login_audit(user->0.id@, now)
            &&& match out.response {
                Err(status) => v == LoginVerdict::TokenFailed && status
                    == StatusCode::InternalServerError,
                Ok(r) => {
                    &&& v != LoginVerdict::TokenFailed
                    &&& r.success == (v == LoginVerdict::Success)
                    &&& r.message@ == login_message(v)
                    &&& r.token == if v == LoginVerdict::Success {
                        token
                    } else {
                        None
                    }
                    &&& r.user is Some <==> v == LoginVerdict::Success
                    &&& r.user matches Some(info) ==> info.id@ == user->0.id@ && info.username@
                        == user->0.username@ && info.role@ == name_of(user->0.role)
                },
            }
        }),
{
    let u = match user {
        Some(u) => u,
        None => {
            return LoginOutcome {
                response: Ok(refusal("用户名或密码错误")),
                count_failure: false,
                note_success: false,
                audit: None,
            };
        },
    };
    if locked {
        return LoginOutcome {
            response: Ok(refusal("账户已被锁定，请稍后再试")),
            count_failure: false,
            note_success: false,
            audit: None,
        };
    }
    if !password_ok {
        return LoginOutcome {
            response: Ok(refusal("用户名或密码错误")),
            count_failure: true,
            note_success: false,
            audit: None,
        };
    }
    if u.two_factor_enabled && !code_given {
        return LoginOutcome {
            response: Ok(refusal("需要双因素认证代码")),
            count_failure: false,
            note_success: false,
            audit: None,
        };
    }
    let token = match token {
        Some(t) => t,
        None => {
            return LoginOutcome {
                response: Err(StatusCode::InternalServerError),
                count_failure: false,
                note_success: false,
                audit: None,
            };
        },
    };
    let audit = AuditLog {
        id: 0,
        user_id: u.id.clone(),
        device_id: "system".to_string(),
        action: "login".to_string(),
        details: Some("用户登录".to_string()),
        ip_address: "127.0.0.1".to_string(),
        user_agent: None,
        timestamp: now,
        success: true,
    };
    LoginOutcome {
        response: Ok(
            LoginResponse {
                success: true,
                token: Some(token),
                user: Some(user_info(u)),
                message: "登录成功".to_string(),
            },
        ),
        count_failure: false,
        note_success: true,
        audit: Some(audit),
    }
}

/// Answers a login at the time of the call, given the account that storage
/// holds for the user name of the request: the lock is read off the clock,
/// the password is checked against the stored hash, and a token is made
/// for a user who has passed.
pub fn login(auth: &AuthManager, user: Option<&User>, request: &LoginRequest) -> (out: LoginOutcome)
    ensures
        user is None ==> (out.response matches Ok(r) && !r.success && r.message@ == login_message(
            LoginVerdict::UnknownUser,
        )),
        user matches Some(u) && bcrypt_verdict(request.password@, u.password_hash@) != Some(true)
            ==> (out.response matches Ok(r) && !r.success),
        out.note_success ==> (user matches Some(u) && bcrypt_verdict(
            request.password@,
            u.password_hash@,
        ) == Some(true)),
{
    let now = unix_time_now();
    match user {
        None => login_outcome(None, false, false, false, None, now),
        Some(u) => {
            let locked = auth.is_user_locked_at(u, now);
            let password_ok = !locked && auth.verify_password(
                request.password.as_str(),
                u.password_hash.as_str(),
            );
            let code_given = request.totp_code.is_some();
            let token = if password_ok && (!u.two_factor_enabled || code_given) {
                match auth.generate_jwt_at(u, now, new_uuid_v4()) {
                    Ok(t) => Some(t),
                    Err(_) => None,
                }
            } else {
                None
            };
            login_outcome(user, locked, password_ok, code_given, token, now)
        },
    }
}

/// The answer to the question who the caller is, from the caller's claims
/// and the account that storage holds for them.
pub fn current_user_response(claims: Option<&Claims>, user: Result<Option<&User>, ()>) -> (r: Result<
    ApiResponse<UserInfo>,
    StatusCode,
>)
    ensures
        match r {
            Err(status) => status == if claims is None {
                StatusCode::Unauthorized
            } else if user is Err {
                StatusCode::InternalServerError
            } else {
                StatusCode::NotFound
            },
            Ok(a) => {
                &&& claims is Some
                &&& user is Ok
                &&& user->Ok_0 is Some
                &&& a.success
                &&& a.message@ == "获取用户信息成功"@
                &&& a.data is Some
                &&& a.data->0.id@ == user->Ok_0->0.id@
                &&& a.data->0.username@ == user->Ok_0->0.username@
                &&& a.data->0.role@ == name_of(user->Ok_0->0.role)
            },
        },
        r is Ok <==> (claims is Some && user is Ok && user->Ok_0 is Some),
{
    if claims.is_none() {
        return Err(StatusCode::Unauthorized);
    }
    match user {
        Err(_) => Err(StatusCode::InternalServerError),
        Ok(None) => Err(StatusCode::NotFound),
        Ok(Some(u)) => Ok(
            ApiResponse {
                success: true,
                data: Some(user_info(u)),
                message: "获取用户信息成功".to_string(),
            },
        ),
    }
}

/// Whether the caller may list and create users: what stands in the way,
/// if anything does.
pub fn admin_gate(claims: Option<&Claims>) -> (r: Result<(), StatusCode>)
    ensures
        r == match claims {
            None => Err::<(), StatusCode>(StatusCode::Unauthorized),
            Some(c) => if administers(c.role@) {
                Ok::<(), StatusCode>(())
            } else {
                Err::<(), StatusCode>(StatusCode::Forbidden)
            },
        },
{
    match claims {
        None => Err(StatusCode::Unauthorized),
        Some(c) => if is_admin_role(c.role.as_str()) {
            Ok(())
        } else {
            Err(StatusCode::Forbidden)
        },
    }
}

/// The account that is made for a request to create a user, under the
/// identifier `id` at time `now`, with the hash of the request's password.
pub fn new_user(request: CreateUserRequest, password_hash: String, id: String, now: u64) -> (user:
    User)
    ensures
        user.id == id,
        user.username == request.username,
        user.password_hash == password_hash,
        user.email == request.email,
        user.role == role_of(request.role@),
        user.groups == request.groups,
        user.enabled,
        user.created_at == now,
        user.last_login is None,
        user.failed_login_attempts == 0,
        user.locked_until is None,
        !user.two_factor_enabled,
        user.two_factor_secret is None,
{
    let role = role_from_name(request.role.as_str());
    User {
        id,
        username: request.username,
        password_hash,
        email: request.email,
        role,
        groups: request.groups,
        enabled: true,
        created_at: now,
        last_login: None,
        failed_login_attempts: 0,
        locked_until: None,
        two_factor_enabled: false,
        two_factor_secret: None,
    }
}

/// What creating a user comes to before storage is written: the status or
/// the refusal that ends the request, or the account to store.
#[derive(Debug, PartialEq, Eq)]
pub enum CreateUserStep {
    Status(StatusCode),
    Refused(ApiResponse<UserInfo>),
    Store(User),
}

/// Decides on a request to create a user at the time of the call, given
/// whether the user name is taken. The password is hashed here.
pub fn create_user(
    auth: &AuthManager,
    claims: Option<&Claims>,
    request: CreateUserRequest,
    username_taken: bool,
) -> (step: CreateUserStep)
    ensures
        claims is None ==> step == CreateUserStep::Status(StatusCode::Unauthorized),
        claims matches Some(c) && !administers(c.role@) ==> step == CreateUserStep::Status(
            StatusCode::Forbidden,
        ),
        claims matches Some(c) && administers(c.role@) && username_taken ==> (
        step matches CreateUserStep::Refused(a) && !a.success && a.data is None && a.message@
            == "用户名已存在"@),
        claims matches Some(c) && administers(c.role@) && !username_taken ==> match step {
            CreateUserStep::Store(user) => user.username == request.username && user.email
                == request.email && user.role == role_of(request.role@) && user.groups
                == request.groups && user.enabled && user.failed_login_attempts == 0,
            CreateUserStep::Status(status) => status == StatusCode::InternalServerError,
            CreateUserStep::Refused(_) => false,
        },
{
    match admin_gate(claims) {
        Err(status) => {
            return CreateUserStep::Status(status);
        },
        Ok(()) => {},
    }
    if username_taken {
        return CreateUserStep::Refused(
            ApiResponse { success: false, data: None, message: "用户名已存在".to_string() },
        );
    }
    match auth.hash_password(request.password.as_str()) {
        Ok(hash) => CreateUserStep::Store(new_user(request, hash, new_uuid_v4(), unix_time_now())),
        Err(_) => CreateUserStep::Status(StatusCode::InternalServerError),
    }
}

/// The answer to a request to create a user, once storage was written.
pub fn user_created_response(user: &User, stored: bool) -> (r: Result<
    ApiResponse<UserInfo>,
    StatusCode,
>)
    ensures
        match r {
            Ok(a) => {
                &&& stored
                &&& a.success
                &&& a.message@ == "用户创建成功"@
                &&& a.data is Some
                &&& a.data->0.id@ == user.id@
                &&& a.data->0.username@ == user.username@
                &&& a.data->0.last_login is None
            },
            Err(status) => !stored && status == StatusCode::InternalServerError,
        },
{
    if !stored {
        return Err(StatusCode::InternalServerError);
    }
    let mut info = user_info(user);
    info.last_login = None;
    Ok(ApiResponse { success: true, data: Some(info), message: "用户创建成功".to_string() })
}

/// The lines of the audit trail that storage is asked for.
#[derive(Debug, PartialEq, Eq)]
pub struct AuditLogFilter {
    pub user_id: Option<String>,
    pub device_id: Option<String>,
    pub limit: i64,
    pub offset: i64,
}

/// The place at which a page begins, where the page is one and its start
/// and length fit the numbers of storage.
pub open spec fn page_fits(page: u64, limit: u64) -> bool {
    page >= 1 && limit <= i64::MAX && (page - 1) * limit <= i64::MAX
}

/// What storage is asked for on a request for lines of the audit trail:
/// an administrator may ask for any user's lines, everyone else gets their
/// own. The page is page 1 of 50 lines unless the request says otherwise.
/// Nothing where the page does not fit.
pub fn audit_log_filter(claims: &Claims, query: AuditLogQuery) -> (r: Option<AuditLogFilter>)
    ensures
        ({
            let page = match query.page {
                Some(p) => p,
                None => DEFAULT_PAGE,
            };
            let limit = match query.limit {
                Some(l) => l,
                None => DEFAULT_LIMIT,
            };
            &&& r is Some <==> page_fits(page, limit)
            &&& r matches Some(f) ==> {
                &&& f.limit == limit
                &&& f.offset == (page - 1) * limit
                &&& f.device_id == query.device_id
                &&& opt_view(f.user_id) == if administers(claims.role@) {
                    opt_view(query.user_id)
                } else {
                    Some(claims.sub@)
                }
            }
        }),
{
    let page = match query.page {
        Some(p) => p,
        None => DEFAULT_PAGE,
    };
    let limit = match query.limit {
        Some(l) => l,
        None => DEFAULT_LIMIT,
    };
    if page < 1 || limit > i64::MAX as u64 {
        return None;
    }
    let offset = match (page - 1).checked_mul(limit) {
        Some(o) => o,
        None => {
            assert(!page_fits(page, limit)) by (nonlinear_arith)
                requires
                    (page - 1) * limit > u64::MAX,
            ;
            return None;
        },
    };
    if offset > i64::MAX as u64 {
        return None;
    }
    let user_id = if is_admin_role(claims.role.as_str()) {
        query.user_id
    } else {
        Some(claims.sub.clone())
    };
    Some(
        AuditLogFilter {
            user_id,
            device_id: query.device_id,
            limit: limit as i64,
            offset: offset as i64,
        },
    )
}

/// The answer that carries lines of the audit trail.
pub fn audit_log_response(logs: Vec<AuditLog>) -> (r: ApiResponse<AuditLogResponse>)
    ensures
        r.success,
        r.message@ == "获取审计日志成功"@,
        r.data matches Some(d) && d.logs == logs && d.total == logs@.len(),
{
    let total = logs.len();
    ApiResponse {
        success: true,
        data: Some(AuditLogResponse { logs, total }),
        message: "获取审计日志成功".to_string(),
    }
}

/// The answer that carries a list of devices.
pub fn device_list_response(devices: Vec<DeviceInfo>) -> (r: ApiResponse<DeviceListResponse>)
    ensures
        r.success,
        r.message@ == "获取设备列表成功"@,
        r.data matches Some(d) && d.devices == devices && d.total == devices@.len(),
{
    let total = devices.len();
    ApiResponse {
        success: true,
        data: Some(DeviceListResponse { devices, total }),
        message: "获取设备列表成功".to_string(),
    }
}

/// The answer to the start of a control session at time `now`, and the
/// line for the audit trail.
pub fn control_device(claims: &Claims, device_id: &str, now: u64) -> (r: (
    ApiResponse<String>,
    AuditLog,
))
    ensures
        r.0.success,
        r.0.message@ == "开始控制设备"@,
        r.0.data matches Some(d) && d@ == "设备控制会话已建立"@,
        r.1@ == control_audit(claims.sub@, device_id@, now),
{
    let audit = AuditLog {
        id: 0,
        user_id: claims.sub.clone(),
        device_id: device_id.to_owned(),
        action: "control_device".to_string(),
        details: Some("用户开始控制设备".to_string()),
        ip_address: "127.0.0.1".to_string(),
        user_agent: None,
        timestamp: now,
        success: true,
    };
    (
        ApiResponse {
            success: true,
            data: Some("设备控制会话已建立".to_string()),
            message: "开始控制设备".to_string(),
        },
        audit,
    )
}

/// The figures of the dashboard, by name.
pub fn dashboard_stats() -> (stats: Vec<(String, u64)>)
    ensures
        stats@.len() == 4,
        stats@[0].0@ == "total_users"@ && stats@[0].1 == 10,
        stats@[1].0@ == "online_devices"@ && stats@[1].1 == 5,
        stats@[2].0@ == "total_connections_today"@ && stats@[2].1 == 25,
        stats@[3].0@ == "active_sessions"@ && stats@[3].1 == 3,
{
    let mut stats: Vec<(String, u64)> = Vec::new();
    stats.push(("total_users".to_string(), 10));
    stats.push(("online_devices".to_string(), 5));
    stats.push(("total_connections_today".to_string(), 25));
    stats.push(("active_sessions".to_string(), 3));
    stats
}

/// The answer to logging out.
pub fn logout() -> (r: ApiResponse<()>)
    ensures
        r.success,
        r.data == Some(()),
        r.message@ == "登出成功"@,
{
    ApiResponse { success: true, data: Some(()), message: "登出成功".to_string() }
}

} // verus!
