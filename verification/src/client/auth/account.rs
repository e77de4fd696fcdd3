//! The account record the service returns on sign-in.

use vstd::prelude::*;

verus! {

/// A signed-in account, as the service describes it.
#[derive(Debug)]
pub struct Account {
    pub credits: String,
    pub fortune_token: String,
    pub unity_campaign_points: String,
    pub next_char_slot_price: String,
    pub early_game_event_tracker: String,
    pub account_id: String,
    pub creation_timestamp: String,
    pub favorite_pet: Option<String>,
    pub has_gifts: String,
    pub deca_signup_popup: String,
    pub max_num_chars: String,
    pub muted_until: String,
    pub last_server: String,
    pub teleport_wait: String,
    pub originating: String,
    pub pet_yard_type: String,
    pub forge_fire_energy: String,
    pub forge_fire_blueprints: String,
    pub campaigns: Campaigns,
    pub name: String,
    pub name_chosen: String,
    pub payment_provider: String,
    pub converted: Option<String>,
    pub is_age_verified: String,
    pub security_questions: SecurityQuestions,
    pub stats: Stats,
    pub guild: Option<Guild>,
    pub access_token: String,
    pub access_token_timestamp: String,
    pub access_token_expiration: String,
}

/// Progress in the account's campaigns.
#[derive(Debug)]
pub struct Campaigns {
    pub campaign_progress: Option<Vec<CampaignProgress>>,
}

/// Progress in one campaign.
#[derive(Debug)]
pub struct CampaignProgress {
    pub points: String,
}

/// The guild an account belongs to.
#[derive(Debug)]
pub struct Guild {
    pub name: String,
    pub rank: String,
    pub id: String,
}

/// Whether, and which, security questions are set.
#[derive(Debug)]
pub struct SecurityQuestions {
    pub has_security_questions: String,
    pub show_security_questions_dialog: String,
    pub security_questions_keys: SecurityQuestionsKeys,
}

/// The keys of the security questions.
#[derive(Debug)]
pub struct SecurityQuestionsKeys {
    pub security_questions_key: Vec<String>,
}

/// Fame statistics.
#[derive(Debug)]
pub struct Stats {
    pub class_stats: Vec<ClassStat>,
    pub best_char_fame: String,
    pub total_fame: String,
    pub fame: String,
}

/// Statistics of one character class.
#[derive(Debug)]
pub struct ClassStat {
    pub best_level: String,
    pub best_base_fame: String,
    pub best_total_fame: String,
    pub object_type: String,
}

} // verus!
