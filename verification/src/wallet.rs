//! The wallet commands of the command-line client and the payment requests they send.
use vstd::prelude::*;
use crate::json::{JsonModel, JsonValue, members_model, no_members, push_member, text_or_null, text_or_null_model};
use crate::saas::{
    ApiRequest, HttpMethod, RequestModel, get_model, get_request, no_pairs, optional_pair, pairs_view,
    post_model, post_request, push_optional_pair, push_pair, query_model,
};
use crate::text::{decimal, opt_view, owned, path_with_tail, u64_to_decimal};

verus! {

/// Arguments of the `wallet` command.
#[derive(Debug)]
pub struct WalletArgs {
    pub command: WalletCommand,
}

/// The wallet commands.
#[derive(Debug)]
pub enum WalletCommand {
    Connect { network: String, address: String, signature: Option<String> },
    Balance { address: String, network: String, token: Option<String> },
    Pay {
        amount: String,
        token: String,
        from: String,
        network: String,
        service: String,
        description: Option<String>,
    },
    History { address: String, network: Option<String>, limit: u32 },
    Disconnect,
    Status,
}

/// The request a wallet command sends first; the status command sends none.
pub open spec fn wallet_request_spec(cmd: WalletCommand) -> Option<RequestModel> {
    match cmd {
        WalletCommand::Connect { network, address, signature } => Some(
            post_model(
                "/api/v1/payments/wallets/connect"@,
                seq![
                    ("network"@, JsonModel::Str(network@)),
                    ("signature"@, text_or_null_model(opt_view(signature))),
                    ("wallet_address"@, JsonModel::Str(address@)),
                ],
            ),
        ),
        WalletCommand::Balance { address, network, token } => Some(
            query_model(
                "/api/v1/payments/wallets/balance"@,
                seq![("wallet_address"@, address@), ("network"@, network@)] + optional_pair(
                    "token"@,
                    opt_view(token),
                ),
            ),
        ),
        WalletCommand::Pay { amount, token, from, network, service, description } => Some(
            post_model(
                "/api/v1/payments/transactions/create"@,
                seq![
                    ("amount"@, JsonModel::Str(amount@)),
                    ("description"@, text_or_null_model(opt_view(description))),
                    ("from_wallet"@, JsonModel::Str(from@)),
                    ("network"@, JsonModel::Str(network@)),
                    ("service_id"@, JsonModel::Str(service@)),
                    ("token"@, JsonModel::Str(token@)),
                ],
            ),
        ),
        WalletCommand::History { address, network, limit } => Some(
            query_model(
                "/api/v1/payments/history"@,
                seq![("wallet_address"@, address@), ("limit"@, decimal(limit as nat))] + optional_pair(
                    "network"@,
                    opt_view(network),
                ),
            ),
        ),
        WalletCommand::Disconnect => Some(
            post_model("/api/v1/payments/wallets/disconnect"@, Seq::empty()),
        ),
        WalletCommand::Status => None,
    }
}

/// The request that a wallet command sends first; none for the status command.
pub fn wallet_request(cmd: WalletCommand) -> (r: Option<ApiRequest>)
    ensures
        match r {
            Some(q) => wallet_request_spec(cmd) == Some(q.model()),
            None => wallet_request_spec(cmd) is None,
        },
{
    match cmd {
        WalletCommand::Connect { network, address, signature } => {
            let mut m = no_members();
            push_member(&mut m, "network", JsonValue::Str(network));
            push_member(&mut m, "signature", text_or_null(signature));
            push_member(&mut m, "wallet_address", JsonValue::Str(address));
            let ghost expected = wallet_request_spec(cmd)->0.body->0->Object_0;
            assert(members_model(m@) =~= expected);
            Some(post_request(owned("/api/v1/payments/wallets/connect"), m))
        },
        WalletCommand::Balance { address, network, token } => {
            let mut q = no_pairs();
            push_pair(&mut q, "wallet_address", address);
            push_pair(&mut q, "network", network);
            let ghost head = pairs_view(q@);
            push_optional_pair(&mut q, "token", token);
            assert(pairs_view(q@) =~= wallet_request_spec(cmd)->0.query);
            Some(ApiRequest { method: HttpMethod::Get, path: owned("/api/v1/payments/wallets/balance"), query: q, body: None })
        },
        WalletCommand::Pay { amount, token, from, network, service, description } => {
            let mut m = no_members();
            push_member(&mut m, "amount", JsonValue::Str(amount));
            push_member(&mut m, "description", text_or_null(description));
            push_member(&mut m, "from_wallet", JsonValue::Str(from));
            push_member(&mut m, "network", JsonValue::Str(network));
            push_member(&mut m, "service_id", JsonValue::Str(service));
            push_member(&mut m, "token", JsonValue::Str(token));
            let ghost expected = wallet_request_spec(cmd)->0.body->0->Object_0;
            assert(members_model(m@) =~= expected);
            Some(post_request(owned("/api/v1/payments/transactions/create"), m))
        },
        WalletCommand::History { address, network, limit } => {
            let mut q = no_pairs();
            push_pair(&mut q, "wallet_address", address);
            push_pair(&mut q, "limit", u64_to_decimal(limit as u64));
            push_optional_pair(&mut q, "network", network);
            assert(pairs_view(q@) =~= wallet_request_spec(cmd)->0.query);
            Some(ApiRequest { method: HttpMethod::Get, path: owned("/api/v1/payments/history"), query: q, body: None })
        },
        WalletCommand::Disconnect => {
            let m = no_members();
            Some(post_request(owned("/api/v1/payments/wallets/disconnect"), m))
        },
        WalletCommand::Status => None,
    }
}

/// The request that confirms a signed payment transaction.
pub fn confirmation_request(transaction_id: &str, signed_transaction: String) -> (r: ApiRequest)
    ensures
        r.model() == post_model(
            "/api/v1/payments/transactions/"@ + transaction_id@ + "/confirm"@,
            seq![("signed_transaction"@, JsonModel::Str(signed_transaction@))],
        ),
{
    let ghost st = signed_transaction@;
    let mut m = no_members();
    push_member(&mut m, "signed_transaction", JsonValue::Str(signed_transaction));
    assert(members_model(m@) =~= seq![("signed_transaction"@, JsonModel::Str(st))]);
    post_request(path_with_tail("/api/v1/payments/transactions/", transaction_id, "/confirm"), m)
}

} // verus!
