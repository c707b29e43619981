//! Default reminder texts, one pool per cadence, and the random choice among
//! them.

use vstd::prelude::*;
use crate::frequency::ReminderFrequency;

verus! {

/// Default texts for the thirty-minute cadence.
pub const REMINDER_MESSAGE_THIRTY_MIN: [&'static str; 10] = [
    "💧 C'est l'heure de boire un peu d'eau ! 💧",
    "💧 C'est l'heure de boire un verre d'eau à moitié plein 💧",
    "💧 C'est l'heure de boire un verre d'eau à moitié vide 💧",
    "💧 C'est l'heure de boire un peu d'eau, et pas autre chose 👀 💧",
    r"🐟 : bl.oupb.loup.upb bloup.b.upblo 
🤖 : Le poisson te demande de boire de l'eau",
    "💧 Il est l'heuurree, l'heure de boire un peu d'eaaauuu 💧",
    "💧 Il est temps que tu boives un peu d'eau, non, tes larmes ne comptent pas💧",
    "💧 C'est l'heure de boire un peu d'eau. Fais attention à ne pas en renverser, l'eau ça mouille 💧",
    "💧 C'est l'heure de boire un peu d'eau. Non, manger un glaçon ne compte pas 💧",
    "💧 C'est l'heure de boire un peu d'eau. 💧",
];

/// Default texts for the one-hour cadence.
pub const REMINDER_MESSAGE_ONE_HOUR: [&'static str; 6] = [
    "💧 C'est l'heure de boire un verre d'eau ! 💧",
    r"Salut. J'ai un cadeau pour toi : 🎁

C'est un verre d'eau 🥤 que tu dois boire, car...
💧 C'est l'heure de boire un verre d'eau ! 💧",
    r"💧 C'est l'heure de boire un verre d'eau !💧 
Pense à vérifier qu'il n'y a pas de poisson dans ton verre avant de boire
Sinon, remplis un autre verre d'eau et mets-le dedans. Tu pourras savourer ton verre d'eau",
    "iL et l'eure dè bUvoir unE verrre d'O",
    r"***C’est** le moment, j’abandonne le bruit,
**L’heure** calme où le corps se réjouit.
**De** mes mains, je saisis la cruche en pierre,
**Boire** devient une prière légère.
**Un** souffle, une pause, l’instant me serre,
**Verre** en main, je savoure la lumière.
**D’eau** vive, je nourris ce qu’il me faut —
Et tout en moi devient plus haut.*

En bref buvez un verre d'eau.",
    r"Je vous présente Sushi, le poisson : 🐟

Savez-vous quel est le point commun entre Sushi et vous ?

Vous buvez tous les deux de l'eau. D'ailleurs...
💧 C'est l'heure de boire un verre d'eau ! 💧"
];

/// Default texts for the three-hour cadence.
pub const REMINDER_MESSAGE_THREE_HOURS: [&'static str; 4] = [
    "💧 C'est l'heure de boire une grande quantité d'eau ! 💧",
    r"Dans des temps immémoriaux, existait un roi qui était surnommé le roi d'eau.
Il était aimé de tous ces citoyens pour sa bonté. En effet, il fournissait de manière gratuite et illimitée de l'eau à ces sujets.
Cependant, malgré cet accès illimité à l'eau, de nombreux citoyens mourraient de soif. La raison de ces morts était que les citoyens ne buvaient pas car ils n'avaient pas soif.
Le roi d'eau, en voyant cela, décida de prendre des mesures drastiques. Il créa une division nommée 'les buveurs' ayant pour mission de trouver les 'non assoiffés' et de leur faire boire de l'eau par la force.
Autrefois paisible, le royaume est devenu un territoire où la peur était omniprésente.
D'autant que personne ne connaissait la méthode utilisée par la division pour faire boire les non-assoiffés. 
Ce qui était sûr, c'est que les personnes arrêtées boivent bien mieux après leur enlèvement.
    
💧 En bref, c'est l'heure de boire une grande quantité d'eau ! Sinon, faites attention aux personnes qui vous suivent💧",
    r"🐟 🐠 🐟 🐠 🐟 🐠 🐟 🐠 🐟 🐠 🐟 🐠 🐟 🐠 🐟 🐠 🐟
    
Oh non, c'est la Fish-Squad, un groupe de poissons très dangereux.
Vite ! Buvez une grande quantité d'eau pour vous sauver.",
    "💧 C'est l'heure de boire une grande quantité d'eau ! Cependant, pas besoin de boire un lac.💧",
];

/// Sent in place of a default text when a pool has none to offer.
pub const ERROR_MESSAGE: &'static str = r"Une erreur est survenue. Le bot n'a pas bu assez d'eau.
D'ailleurs, pensez à boire pour ne pas finir comme lui.";

/// The default texts of a cadence, in the order of its pool.
pub open spec fn default_pool(freq: ReminderFrequency) -> Seq<Seq<char>> {
    match freq {
        ReminderFrequency::ThirtyMin => Seq::new(10, |i: int| REMINDER_MESSAGE_THIRTY_MIN@[i]@),
        ReminderFrequency::OneHour => Seq::new(6, |i: int| REMINDER_MESSAGE_ONE_HOUR@[i]@),
        ReminderFrequency::ThreeHours => Seq::new(4, |i: int| REMINDER_MESSAGE_THREE_HOURS@[i]@),
    }
}

/// What `default_message_at` returns: the pool's text at `index`, or the
/// fallback text when the pool has no such entry.
pub open spec fn default_message_at_spec(freq: ReminderFrequency, index: int) -> Seq<char> {
    if 0 <= index < default_pool(freq).len() {
        default_pool(freq)[index]
    } else {
        ERROR_MESSAGE@
    }
}

/// Whether `text` may be sent as the default for a cadence: any text of its
/// pool, or the fallback text if the pool is empty.
pub open spec fn is_default_message(freq: ReminderFrequency, text: Seq<char>) -> bool {
    if default_pool(freq).len() == 0 {
        text == ERROR_MESSAGE@
    } else {
        default_pool(freq).contains(text)
    }
}

/// Number of default texts of a cadence.
pub fn default_pool_len(freq: ReminderFrequency) -> (len: usize)
    ensures
        len == default_pool(freq).len(),
{
    match freq {
        ReminderFrequency::ThirtyMin => 10,
        ReminderFrequency::OneHour => 6,
        ReminderFrequency::ThreeHours => 4,
    }
}

/// The default text at a position of a cadence's pool; the fallback text for
/// a position past its end.
pub fn default_message_at(freq: ReminderFrequency, index: usize) -> (text: &'static str)
    ensures
        text@ == default_message_at_spec(freq, index as int),
{
    if index >= default_pool_len(freq) {
        return ERROR_MESSAGE;
    }
    match freq {
        ReminderFrequency::ThirtyMin => REMINDER_MESSAGE_THIRTY_MIN[index],
        ReminderFrequency::OneHour => REMINDER_MESSAGE_ONE_HOUR[index],
        ReminderFrequency::ThreeHours => REMINDER_MESSAGE_THREE_HOURS[index],
    }
}

/// `rand::random_range` on the half-open range from zero to `bound`, drawn
/// from the thread's generator. `rand` panics on an empty range, which
/// `bound > 0` rules out; apart from that it panics only where the operating
/// system gives the generator no seed. All that is claimed of the outcome is
/// that it lies in the range.
#[verifier::external_body]
fn random_index(bound: usize) -> (index: usize)
    requires
        bound > 0,
    ensures
        index < bound,
{
    rand::random_range(0..bound)
}

/// A default text for a cadence, drawn uniformly from its pool; the fallback
/// text if the pool is empty.
pub fn get_default_message(freq: ReminderFrequency) -> (text: &'static str)
    ensures
        is_default_message(freq, text@),
{
    let len = default_pool_len(freq);
    if len == 0 {
        ERROR_MESSAGE
    } else {
        let index = random_index(len);
        let text = default_message_at(freq, index);
        assert(default_pool(freq)[index as int] == text@);
        text
    }
}

} // verus!
