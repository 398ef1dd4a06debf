//! The roots of unity whose order is a power of two, and the generators of
//! the subgroups of such an order.

use crate::error::FieldError;
use crate::field::CamlBn382Fq;
use crate::modular::{
    fq_pow, fq_square, lemma_fq_pow_adds, lemma_fq_pow_multiplies, lemma_fq_pow_of_one,
    lemma_fq_pow_one, lemma_fq_square_is_pow,
};
use crate::params::{
    modulus, modulus_minus_one, two_adic_root_of_unity, two_adic_root_of_unity_limbs,
    TWO_ADICITY,
};
use vstd::arithmetic::div_mod::lemma_small_mod;
use vstd::arithmetic::power2::{
    lemma2_to64, lemma_pow2_adds, lemma_pow2_pos, lemma_pow2_strictly_increases,
    lemma_pow2_unfold, pow2,
};
use vstd::prelude::*;

verus! {

/// The root of unity squared `k` times, for `k` up to the two-adicity: the
/// root of unity raised to two to the power `k`.
pub open spec fn root_of_unity_squared(k: nat) -> nat {
    if k == 0 {
        950838555121469764895066233784900498989129429402054244948726633846932698297064044539167408369284624314448218509887nat
    } else if k == 1 {
        5341191573032782860653576436029833337926444950830416843058091389601304187450175599759370082359603096600507171462428nat
    } else if k == 2 {
        4128398869277449790296248943390407487627589309836701017433981222960714456917856669214872949345388947213688906639766nat
    } else if k == 3 {
        2641306135085554637181598329015936687707056835857062607892461763156132848059316059648473707859729853627005750853067nat
    } else if k == 4 {
        3158671180710535082572185808335420116319754282564889862663864197624708017008998382461834711633141693720358307346283nat
    } else if k == 5 {
        5176833890109542053875006538308507004016018934685893952364566408325564534649205680366001713662483124471470768087183nat
    } else if k == 6 {
        2170052427135104552704571442007054159350007103292060713082179739151231907714935143215063955445701813457960042191768nat
    } else if k == 7 {
        1052304168721500537566536279774330262898051823318646724350305666745567419089997088377542479245521137792335832008479nat
    } else if k == 8 {
        355702304204360644850324576246692881960508325495812196008379712079032697586128275910808915904632852924202337052782nat
    } else if k == 9 {
        3362312853624929448117498556411493226517656849172748137674116715726399384775672613939441965655718430375730147237101nat
    } else if k == 10 {
        4063814877646869552469229258262929226897923478939799768911771923335709974728460879636499285704993617425867548515756nat
    } else if k == 11 {
        4864629341309407022345358244423856982834553270858065752892496250029312539503539124127124911982218487723079481070120nat
    } else if k == 12 {
        4024097530636867288408688737507945817630819675265663559924716170183279135474039147645959651702400638041365715079740nat
    } else if k == 13 {
        166439572520802546640830909745539035181566882009311536788296858235306903927777016077292995981217266671741070917118nat
    } else if k == 14 {
        2921669958557323798198428461233501364461744284622218877921006918286981593447817163478835547450620012008101409416022nat
    } else if k == 15 {
        4158102799026550463663258244046318502674992083956003422921615088916429603234179644645013082572923608920332485923326nat
    } else if k == 16 {
        3417394928624705636168606134394550385941832211703608236521443535081136879800391673146078708835265599491886106465328nat
    } else if k == 17 {
        2808462260279804120384599072253165763042270529587087855695834478876726001545900902101822954122923600201896686726320nat
    } else if k == 18 {
        3535570288926646404503358653231885544768658140546363195328411077480609771295237933457582236843785231185594957952754nat
    } else if k == 19 {
        5521153796806337882110629163262304187255056043811255520519949372289052735403954523203560900124179272716666853859921nat
    } else if k == 20 {
        3506703224805936870023969689868589358094775478842528650263010355012681005287827587354614402450921618765615387617309nat
    } else if k == 21 {
        2276449382260339437336798209467795781797659850127158559009091820666855730453482352728861970435699154723417851028254nat
    } else if k == 22 {
        1594702429421019468426778277079797617986898726539203385428569864058717073500424058545168585210213747458180914608597nat
    } else if k == 23 {
        301062164377459991145836769736947452065095475593536130862231034388689419796641348620476164702581738535379176058354nat
    } else if k == 24 {
        400630151863158349760068419529841994948362199446994561033676515924647121320656810214164482494449308875148675466949nat
    } else if k == 25 {
        304573136687843369551851335369635405513350868654359768696946940947865858907845571512820345034264355462819202001396nat
    } else if k == 26 {
        2844406984183674725055022796126034724168801052313207144103180070603116674890640979069618287514528591499320424527914nat
    } else if k == 27 {
        2865030948895992897023268614237791834116566858538776249782713923189774375930609875313253209594301610615653572277881nat
    } else if k == 28 {
        4654189871913204300555248592613037802862153119734949982332069168986747277709041818953239176138271404449521342673445nat
    } else if k == 29 {
        1090253878573562996353111714289781668732717503512752000095556812514543152435918103015684405993162281534220581682823nat
    } else if k == 30 {
        1928244093796462784243313903911893454407217499308198068809364827283919235377421012537640214130202697560755384045159nat
    } else if k == 31 {
        3213352414804170811529668099514319640549520488842987545821840908822544879019296116594451939472123147029748166235607nat
    } else if k == 32 {
        5153232061643402538945907617189163551434603367898411173627744371206133891806144718260733307763049245572785953597515nat
    } else if k == 33 {
        1837515428981218552652427003112104593269246520169940202678294353789347144570295742005929250469767403161125890905563nat
    } else if k == 34 {
        3743308929063076545113445367436542340527028058624308623501158656379392933303782412527894359083690984762904014788140nat
    } else if k == 35 {
        4301621219642959148763406838365861130334772272200398753847908823086341750004738676394936699083038830593234646842422nat
    } else if k == 36 {
        5255465356045851378082765385277267116497087843799330186434114565704811094738234460256657565849969930864372752450112nat
    } else if k == 37 {
        1195002482326705303642042138206461640517238891265325264502773505946951259593535304607806278861982043554448347395069nat
    } else if k == 38 {
        3859315723391135293164493986213384511058484392795135291264722773717155121200954004672403480593226627436850075556337nat
    } else if k == 39 {
        2691781690311507442548956364877769107279168878177857170444842987965890149033855207577156845019529580145596299176637nat
    } else if k == 40 {
        2104403865653439628430752054077862193211705536946440129860395603011448456876414647768141668866947000573550851110494nat
    } else if k == 41 {
        521827691817665133629405763430538810865209869559853259167571989097507623881391202075533662378574147620084287982520nat
    } else if k == 42 {
        3356687793039577181229884718365236980919050178475023803761591837362752649629452659708878622191754375325689627807734nat
    } else if k == 43 {
        5013554075778373175088610963583402282167743436233935111756770687113138328490166719736784751683052846342371471399614nat
    } else if k == 44 {
        4251685756637537547437757430996141606932522843251591757329826494469502371027614797875321718595990245485888248268229nat
    } else if k == 45 {
        3448635671972055154656826156785989318989094342665767055020952410754286685783110438402859924114423239363926974320802nat
    } else if k == 46 {
        4163237329856013093443084037251110506524373876101178631693338198388530419400111004292385692712547465468275396162190nat
    } else if k == 47 {
        5163118052182274074530285554757536612291656774461210185042266192285946549090806353951053581726196696898467526564081nat
    } else if k == 48 {
        5016275438873394302463039576476817955064069259080687661185062392585188601581668614441038125112855673470346687221325nat
    } else if k == 49 {
        3312952854292230942740579572871839815491915229837300406152160780840116368394802039045055242754699689232730018709646nat
    } else if k == 50 {
        3405015772747615688594903213923588947544765745069273884727081382943177782252113454729108464390361274716396979334121nat
    } else if k == 51 {
        5261873691581204556734705348845433849543446950434526066309019721598417263999192291683706882715087564926359390260233nat
    } else if k == 52 {
        1408750449011379330352079224175085970426107438248234939069129597795123288045279538648391939799548359839163177749577nat
    } else if k == 53 {
        4917814060116898831145629913765507061800894698749824635648940571416427972380403661582404868924919812738493320023916nat
    } else if k == 54 {
        3954864211914452015784325537737579432538134430245269014208753254334349597683506363502053699014614314007383330168337nat
    } else if k == 55 {
        4102130627233910115542139278499943980429974494575469840368839812481059357286964186658396929635573165037216870141175nat
    } else if k == 56 {
        80708007870529866781325968939024352149674855044305693332666793860935894088748007245682117341464223137970044945694nat
    } else if k == 57 {
        5316372810710081885198956411356355357284377326668248537542813537022681658219417470805229885835188114079250668595139nat
    } else if k == 58 {
        5218444963304397118173401321913771461303858432055348582079545788743090597076713266411326950969528208010946417160966nat
    } else if k == 59 {
        4868768862630543842937666056750975825081687053935315749430318009425597067474343044007622822097031868826237043586394nat
    } else if k == 60 {
        561897214949119121941713846552065539749460507397938577594310615061295374928316802348480767855987306666919161431562nat
    } else if k == 61 {
        24044671689209749420385659137037191658007319268791725802092871195347162610074909725096124762718558511007329578768nat
    } else if k == 62 {
        3355334080594953995855867680155006802702381325663433194192356212620874848362048843890262874390864480744467153969640nat
    } else if k == 63 {
        3295425177511765134459312254065159469124083694181718991955037111027458138247038870893794486258483769545051375854976nat
    } else if k == 64 {
        2686326003453696263251350660626594761873880558539835253101981121110688229613832749899021826322153222023467748905294nat
    } else if k == 65 {
        5099026633978935027349619722573996727139078005938536171898826176857100539930330171157727008067470114644437984639114nat
    } else if k == 66 {
        5543634365110765627805495722742127385843376434033820803592568747918351978899288491582778380528407187068941959692288nat
    } else {
        1
    }
}

/// Each entry of the table is the square of the one before.
proof fn lemma_table_step(k: nat)
    requires
        k < 67,
    ensures
        fq_square(root_of_unity_squared(k)) == root_of_unity_squared(k + 1),
{
    if k == 0 {
        assert(fq_square(root_of_unity_squared(0)) == root_of_unity_squared(1));
    }
    if k == 1 {
        assert(fq_square(root_of_unity_squared(1)) == root_of_unity_squared(2));
    }
    if k == 2 {
        assert(fq_square(root_of_unity_squared(2)) == root_of_unity_squared(3));
    }
    if k == 3 {
        assert(fq_square(root_of_unity_squared(3)) == root_of_unity_squared(4));
    }
    if k == 4 {
        assert(fq_square(root_of_unity_squared(4)) == root_of_unity_squared(5));
    }
    if k == 5 {
        assert(fq_square(root_of_unity_squared(5)) == root_of_unity_squared(6));
    }
    if k == 6 {
        assert(fq_square(root_of_unity_squared(6)) == root_of_unity_squared(7));
    }
    if k == 7 {
        assert(fq_square(root_of_unity_squared(7)) == root_of_unity_squared(8));
    }
    if k == 8 {
        assert(fq_square(root_of_unity_squared(8)) == root_of_unity_squared(9));
    }
    if k == 9 {
        assert(fq_square(root_of_unity_squared(9)) == root_of_unity_squared(10));
    }
    if k == 10 {
        assert(fq_square(root_of_unity_squared(10)) == root_of_unity_squared(11));
    }
    if k == 11 {
        assert(fq_square(root_of_unity_squared(11)) == root_of_unity_squared(12));
    }
    if k == 12 {
        assert(fq_square(root_of_unity_squared(12)) == root_of_unity_squared(13));
    }
    if k == 13 {
        assert(fq_square(root_of_unity_squared(13)) == root_of_unity_squared(14));
    }
    if k == 14 {
        assert(fq_square(root_of_unity_squared(14)) == root_of_unity_squared(15));
    }
    if k == 15 {
        assert(fq_square(root_of_unity_squared(15)) == root_of_unity_squared(16));
    }
    if k == 16 {
        assert(fq_square(root_of_unity_squared(16)) == root_of_unity_squared(17));
    }
    if k == 17 {
        assert(fq_square(root_of_unity_squared(17)) == root_of_unity_squared(18));
    }
    if k == 18 {
        assert(fq_square(root_of_unity_squared(18)) == root_of_unity_squared(19));
    }
    if k == 19 {
        assert(fq_square(root_of_unity_squared(19)) == root_of_unity_squared(20));
    }
    if k == 20 {
        assert(fq_square(root_of_unity_squared(20)) == root_of_unity_squared(21));
    }
    if k == 21 {
        assert(fq_square(root_of_unity_squared(21)) == root_of_unity_squared(22));
    }
    if k == 22 {
        assert(fq_square(root_of_unity_squared(22)) == root_of_unity_squared(23));
    }
    if k == 23 {
        assert(fq_square(root_of_unity_squared(23)) == root_of_unity_squared(24));
    }
    if k == 24 {
        assert(fq_square(root_of_unity_squared(24)) == root_of_unity_squared(25));
    }
    if k == 25 {
        assert(fq_square(root_of_unity_squared(25)) == root_of_unity_squared(26));
    }
    if k == 26 {
        assert(fq_square(root_of_unity_squared(26)) == root_of_unity_squared(27));
    }
    if k == 27 {
        assert(fq_square(root_of_unity_squared(27)) == root_of_unity_squared(28));
    }
    if k == 28 {
        assert(fq_square(root_of_unity_squared(28)) == root_of_unity_squared(29));
    }
    if k == 29 {
        assert(fq_square(root_of_unity_squared(29)) == root_of_unity_squared(30));
    }
    if k == 30 {
        assert(fq_square(root_of_unity_squared(30)) == root_of_unity_squared(31));
    }
    if k == 31 {
        assert(fq_square(root_of_unity_squared(31)) == root_of_unity_squared(32));
    }
    if k == 32 {
        assert(fq_square(root_of_unity_squared(32)) == root_of_unity_squared(33));
    }
    if k == 33 {
        assert(fq_square(root_of_unity_squared(33)) == root_of_unity_squared(34));
    }
    if k == 34 {
        assert(fq_square(root_of_unity_squared(34)) == root_of_unity_squared(35));
    }
    if k == 35 {
        assert(fq_square(root_of_unity_squared(35)) == root_of_unity_squared(36));
    }
    if k == 36 {
        assert(fq_square(root_of_unity_squared(36)) == root_of_unity_squared(37));
    }
    if k == 37 {
        assert(fq_square(root_of_unity_squared(37)) == root_of_unity_squared(38));
    }
    if k == 38 {
        assert(fq_square(root_of_unity_squared(38)) == root_of_unity_squared(39));
    }
    if k == 39 {
        assert(fq_square(root_of_unity_squared(39)) == root_of_unity_squared(40));
    }
    if k == 40 {
        assert(fq_square(root_of_unity_squared(40)) == root_of_unity_squared(41));
    }
    if k == 41 {
        assert(fq_square(root_of_unity_squared(41)) == root_of_unity_squared(42));
    }
    if k == 42 {
        assert(fq_square(root_of_unity_squared(42)) == root_of_unity_squared(43));
    }
    if k == 43 {
        assert(fq_square(root_of_unity_squared(43)) == root_of_unity_squared(44));
    }
    if k == 44 {
        assert(fq_square(root_of_unity_squared(44)) == root_of_unity_squared(45));
    }
    if k == 45 {
        assert(fq_square(root_of_unity_squared(45)) == root_of_unity_squared(46));
    }
    if k == 46 {
        assert(fq_square(root_of_unity_squared(46)) == root_of_unity_squared(47));
    }
    if k == 47 {
        assert(fq_square(root_of_unity_squared(47)) == root_of_unity_squared(48));
    }
    if k == 48 {
        assert(fq_square(root_of_unity_squared(48)) == root_of_unity_squared(49));
    }
    if k == 49 {
        assert(fq_square(root_of_unity_squared(49)) == root_of_unity_squared(50));
    }
    if k == 50 {
        assert(fq_square(root_of_unity_squared(50)) == root_of_unity_squared(51));
    }
    if k == 51 {
        assert(fq_square(root_of_unity_squared(51)) == root_of_unity_squared(52));
    }
    if k == 52 {
        assert(fq_square(root_of_unity_squared(52)) == root_of_unity_squared(53));
    }
    if k == 53 {
        assert(fq_square(root_of_unity_squared(53)) == root_of_unity_squared(54));
    }
    if k == 54 {
        assert(fq_square(root_of_unity_squared(54)) == root_of_unity_squared(55));
    }
    if k == 55 {
        assert(fq_square(root_of_unity_squared(55)) == root_of_unity_squared(56));
    }
    if k == 56 {
        assert(fq_square(root_of_unity_squared(56)) == root_of_unity_squared(57));
    }
    if k == 57 {
        assert(fq_square(root_of_unity_squared(57)) == root_of_unity_squared(58));
    }
    if k == 58 {
        assert(fq_square(root_of_unity_squared(58)) == root_of_unity_squared(59));
    }
    if k == 59 {
        assert(fq_square(root_of_unity_squared(59)) == root_of_unity_squared(60));
    }
    if k == 60 {
        assert(fq_square(root_of_unity_squared(60)) == root_of_unity_squared(61));
    }
    if k == 61 {
        assert(fq_square(root_of_unity_squared(61)) == root_of_unity_squared(62));
    }
    if k == 62 {
        assert(fq_square(root_of_unity_squared(62)) == root_of_unity_squared(63));
    }
    if k == 63 {
        assert(fq_square(root_of_unity_squared(63)) == root_of_unity_squared(64));
    }
    if k == 64 {
        assert(fq_square(root_of_unity_squared(64)) == root_of_unity_squared(65));
    }
    if k == 65 {
        assert(fq_square(root_of_unity_squared(65)) == root_of_unity_squared(66));
    }
    if k == 66 {
        assert(fq_square(root_of_unity_squared(66)) == root_of_unity_squared(67));
    }
}

/// The table holds the root of unity raised to the powers of two.
pub proof fn lemma_root_of_unity_squared(k: nat)
    requires
        k <= 67,
    ensures
        fq_pow(two_adic_root_of_unity(), pow2(k)) == root_of_unity_squared(k),
    decreases k,
{
    let w = two_adic_root_of_unity();
    if k == 0 {
        lemma2_to64();
        lemma_fq_pow_one(w);
        lemma_small_mod(w, modulus());
    } else {
        let j = (k - 1) as nat;
        lemma_root_of_unity_squared(j);
        lemma_table_step(j);
        lemma_pow2_unfold(k);
        lemma_fq_square_is_pow(root_of_unity_squared(j));
        lemma_fq_pow_multiplies(w, pow2(j), 2);
    }
}

/// The root of unity has order two to the power of the two-adicity: raised
/// to half of that it is minus one, and raised to it, one.
pub proof fn lemma_root_of_unity_order()
    ensures
        fq_pow(two_adic_root_of_unity(), pow2(66)) == modulus() - 1,
        fq_pow(two_adic_root_of_unity(), pow2(67)) == 1,
{
    lemma_root_of_unity_squared(66);
    lemma_root_of_unity_squared(67);
}

/// The generator of the subgroup of order two to the power `n`: the root of
/// unity raised to two to the power of the two-adicity less `n`.
pub open spec fn domain_generator_spec(n: nat) -> nat
    recommends
        n <= 67,
{
    fq_pow(two_adic_root_of_unity(), pow2((67 - n) as nat))
}

/// The generator of the subgroup of order two to the power `n`, raised to
/// two to the power `j`, is the root of unity raised to two to the power of
/// the two-adicity less `n`, plus `j`.
pub proof fn lemma_domain_generator_power(n: nat, j: nat)
    requires
        n <= 67,
    ensures
        fq_pow(domain_generator_spec(n), pow2(j)) == fq_pow(
            two_adic_root_of_unity(),
            pow2((67 - n + j) as nat),
        ),
{
    let w = two_adic_root_of_unity();
    let s = (67 - n) as nat;
    lemma_fq_pow_multiplies(w, pow2(s), pow2(j));
    lemma_pow2_adds(s, j);
}

/// The generator of the subgroup of order two to the power `n` has that
/// order: raised to it, the generator is one; raised to half of it, minus
/// one.
pub proof fn lemma_domain_generator_order(n: nat)
    requires
        n <= 67,
    ensures
        fq_pow(domain_generator_spec(n), pow2(n)) == 1,
        n >= 1 ==> fq_pow(domain_generator_spec(n), pow2((n - 1) as nat)) == modulus() - 1,
        n >= 1 ==> fq_pow(domain_generator_spec(n), pow2((n - 1) as nat)) != 1,
        n == 0 ==> domain_generator_spec(n) == 1,
{
    lemma_root_of_unity_order();
    lemma_domain_generator_power(n, n);
    if n >= 1 {
        lemma_domain_generator_power(n, (n - 1) as nat);
    }
}

/// A positive number is a power of two times an odd number.
proof fn lemma_odd_part(j: nat) -> (r: (nat, nat))
    requires
        j > 0,
    ensures
        j == pow2(r.0) * r.1,
        r.1 % 2 == 1,
    decreases j,
{
    if j % 2 == 1 {
        lemma2_to64();
        assert(j == 1 * j);
        (0, j)
    } else {
        let (s, m) = lemma_odd_part(j / 2);
        lemma_pow2_unfold(s + 1);
        assert(pow2(s + 1) * m == 2 * (pow2(s) * m)) by (nonlinear_arith)
            requires
                pow2(s + 1) == 2 * pow2(s),
        ;
        assert(j == 2 * (j / 2));
        (s + 1, m)
    }
}

/// Minus one to an odd power is minus one.
proof fn lemma_minus_one_odd_power(m: nat)
    requires
        m % 2 == 1,
    ensures
        fq_pow(modulus_minus_one(), m) == modulus_minus_one(),
    decreases m,
{
    let x = modulus_minus_one();
    if m == 1 {
        lemma_fq_pow_one(x);
        lemma_small_mod(x, modulus());
    } else {
        lemma_minus_one_odd_power((m - 2) as nat);
        lemma_fq_pow_adds(x, (m - 2) as nat, 2);
        lemma_fq_square_is_pow(x);
        assert(fq_square(x) == 1);
        lemma_small_mod(x, modulus());
    }
}

/// The order of the generator is exactly two to the power `n`: no smaller
/// positive power of it is one.
pub proof fn lemma_domain_generator_exact_order(n: nat, j: nat)
    requires
        n <= 67,
        0 < j < pow2(n),
    ensures
        fq_pow(domain_generator_spec(n), j) != 1,
{
    let g = domain_generator_spec(n);
    let (s, m) = lemma_odd_part(j);
    lemma_pow2_pos(s);
    assert(pow2(s) <= j) by (nonlinear_arith)
        requires
            j == pow2(s) * m,
            m >= 1,
            pow2(s) > 0,
    ;
    if s >= n {
        if s > n {
            lemma_pow2_strictly_increases(n, s);
        }
        assert(false);
    }
    let rest = (n - 1 - s) as nat;
    lemma_pow2_adds(s, rest);
    assert(j * pow2(rest) == pow2((n - 1) as nat) * m) by (nonlinear_arith)
        requires
            j == pow2(s) * m,
            pow2(s) * pow2(rest) == pow2((n - 1) as nat),
    ;
    lemma_domain_generator_order(n);
    lemma_fq_pow_multiplies(g, pow2((n - 1) as nat), m);
    lemma_minus_one_odd_power(m);
    if fq_pow(g, j) == 1 {
        lemma_fq_pow_multiplies(g, j, pow2(rest));
        lemma_fq_pow_of_one(pow2(rest));
        assert(false);
    }
}

/// The generator of the subgroup of order two to the power `log2_size`;
/// refused where the field has no subgroup of that order.
pub fn domain_generator(log2_size: isize) -> (r: Result<CamlBn382Fq, FieldError>)
    ensures
        0 <= log2_size <= 67 ==> r.is_ok() && r.unwrap()@ == domain_generator_spec(
            log2_size as nat,
        ),
        !(0 <= log2_size <= 67) ==> r == Err::<CamlBn382Fq, FieldError>(
            FieldError::DomainSizeUnsupported,
        ),
{
    if log2_size < 0 || log2_size > 67 {
        return Err(FieldError::DomainSizeUnsupported);
    }
    let squarings: u32 = TWO_ADICITY - (log2_size as u32);
    let root = CamlBn382Fq::from_limbs(two_adic_root_of_unity_limbs());
    Ok(root.pow2k(squarings))
}

} // verus!
